use app_shell::encoding::toolbar_page;
use app_shell::failure::{OpenFailure, OpenFailureKind};
use app_shell::greet;
use app_shell::profile::{plan_profile_dir, profile_dir, profile_dir_outcome, ProfileStep};
use app_shell::registry::{load_outcome, registry_path, AppRecord, RegistryRead};
use app_shell::text::{push_decimal, remove_char, same_text};

#[test]
fn profile_directory_is_profiles_and_label_under_the_data_directory() {
    assert_eq!(profile_dir("/data", "ex1"), "/data/profiles/ex1");
    assert_eq!(profile_dir("", ""), "/profiles/");
    assert_eq!(profile_dir("C:/Users/u/AppData", "app-17"), "C:/Users/u/AppData/profiles/app-17");
}

#[test]
fn existing_directory_is_reused() {
    assert_eq!(plan_profile_dir(true), ProfileStep::Reuse);
    assert_eq!(plan_profile_dir(false), ProfileStep::Create);
}

#[test]
fn securing_twice_never_fails_the_second_time() {
    let path = profile_dir("/data", "ex1");
    let first = profile_dir_outcome(path.clone(), plan_profile_dir(false), Ok(()));
    assert_eq!(first, Ok(path.clone()));
    let second = profile_dir_outcome(
        path.clone(),
        plan_profile_dir(true),
        Err("already exists".to_string()),
    );
    assert_eq!(second, Ok(path));
}

#[test]
fn failed_creation_is_an_io_failure() {
    let r = profile_dir_outcome(
        "/data/profiles/ex1".to_string(),
        ProfileStep::Create,
        Err("disk full".to_string()),
    );
    assert_eq!(
        r,
        Err(OpenFailure { kind: OpenFailureKind::IoFailure, message: "disk full".to_string() })
    );
}

#[test]
fn toolbar_page_carries_address_and_name() {
    assert_eq!(
        toolbar_page("https://example.com", "Example"),
        "index.html?mode=toolbar&url=https%3A%2F%2Fexample.com&name=Example"
    );
}

#[test]
fn toolbar_page_encodes_what_would_break_the_query() {
    assert_eq!(
        toolbar_page("https://a.test/?x=1&y=2#top", "Tom & Jerry = 100%"),
        "index.html?mode=toolbar&url=https%3A%2F%2Fa.test%2F%3Fx%3D1%26y%3D2%23top\
         &name=Tom%20%26%20Jerry%20%3D%20100%25"
    );
}

#[test]
fn toolbar_page_encodes_text_byte_by_byte() {
    assert_eq!(
        toolbar_page("", "\u{1f47e} caf\u{e9}-_.~"),
        "index.html?mode=toolbar&url=&name=%F0%9F%91%BE%20caf%C3%A9-_.~"
    );
}

#[test]
fn registry_that_was_never_saved_is_empty() {
    assert_eq!(load_outcome(RegistryRead::Absent), Ok(vec![]));
}

#[test]
fn loaded_registry_is_handed_on_in_order() {
    let one = AppRecord {
        id: 1,
        name: "A".to_string(),
        url: "https://a.test".to_string(),
        icon: String::new(),
    };
    let two = AppRecord {
        id: 2,
        name: "B".to_string(),
        url: "https://b.test".to_string(),
        icon: "b.png".to_string(),
    };
    assert_eq!(load_outcome(RegistryRead::Loaded(vec![one.clone()])), Ok(vec![one.clone()]));
    assert_eq!(
        load_outcome(RegistryRead::Loaded(vec![two.clone(), one.clone()])),
        Ok(vec![two.duplicate(), one.duplicate()])
    );
    assert_eq!(load_outcome(RegistryRead::Loaded(vec![])), Ok(vec![]));
}

#[test]
fn unreadable_registry_is_an_error() {
    assert_eq!(
        load_outcome(RegistryRead::Unreadable("expected value at line 1 column 1".to_string())),
        Err("expected value at line 1 column 1".to_string())
    );
}

#[test]
fn registry_file_is_apps_json() {
    assert_eq!(registry_path("/data"), "/data/apps.json");
}

#[test]
fn greeting_names_the_guest() {
    assert_eq!(greet("Ada"), "Hello, Ada! You've been greeted from Rust!");
    assert_eq!(greet(""), "Hello, ! You've been greeted from Rust!");
}

#[test]
fn remove_char_drops_every_occurrence() {
    assert_eq!(remove_char("a\"b\"\"c", '"'), "abc");
    assert_eq!(remove_char("\"\"", '"'), "");
    assert_eq!(remove_char("", '"'), "");
    assert_eq!(remove_char("caf\u{e9}", 'x'), "caf\u{e9}");
}

#[test]
fn decimal_numerals_are_appended() {
    let mut out = String::from("n=");
    push_decimal(&mut out, 0);
    push_decimal(&mut out, 905);
    assert_eq!(out, "n=0905");
}

#[test]
fn same_text_compares_characters() {
    assert!(same_text("nav_back", "nav_back"));
    assert!(!same_text("nav_back", "nav_bac"));
    assert!(same_text("", ""));
}
