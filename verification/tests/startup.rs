use app_shell::startup::{startup_intent, startup_label, StartupIntent};

fn args(list: &[&str]) -> Vec<String> {
    list.iter().map(|s| s.to_string()).collect()
}

#[test]
fn both_flags_open_an_app() {
    let intent = startup_intent(&args(&[
        "shell",
        "--app-url",
        "https://a.test",
        "--app-name",
        "A",
    ]));
    assert_eq!(
        intent,
        StartupIntent::OpenApp { url: "https://a.test".to_string(), name: "A".to_string() }
    );
}

#[test]
fn flags_in_either_order() {
    let intent =
        startup_intent(&args(&["shell", "--app-name", "A", "--app-url", "https://a.test"]));
    assert_eq!(
        intent,
        StartupIntent::OpenApp { url: "https://a.test".to_string(), name: "A".to_string() }
    );
}

#[test]
fn no_flags_show_the_launcher() {
    assert_eq!(startup_intent(&args(&[])), StartupIntent::ShowLauncher);
    assert_eq!(startup_intent(&args(&["shell"])), StartupIntent::ShowLauncher);
    assert_eq!(startup_intent(&args(&["shell", "--verbose"])), StartupIntent::ShowLauncher);
}

#[test]
fn one_flag_alone_shows_the_launcher() {
    assert_eq!(
        startup_intent(&args(&["shell", "--app-url", "https://a.test"])),
        StartupIntent::ShowLauncher
    );
    assert_eq!(
        startup_intent(&args(&["shell", "--app-name", "A"])),
        StartupIntent::ShowLauncher
    );
}

#[test]
fn flag_without_a_value_is_not_read() {
    assert_eq!(
        startup_intent(&args(&["shell", "--app-name", "A", "--app-url"])),
        StartupIntent::ShowLauncher
    );
}

#[test]
fn last_occurrence_of_a_flag_wins() {
    let intent = startup_intent(&args(&[
        "shell",
        "--app-url",
        "https://first.test",
        "--app-name",
        "A",
        "--app-url",
        "https://second.test",
    ]));
    assert_eq!(
        intent,
        StartupIntent::OpenApp { url: "https://second.test".to_string(), name: "A".to_string() }
    );
}

#[test]
fn trailing_flag_does_not_displace_an_earlier_value() {
    let intent = startup_intent(&args(&[
        "shell",
        "--app-url",
        "https://a.test",
        "--app-name",
        "A",
        "--app-url",
    ]));
    assert_eq!(
        intent,
        StartupIntent::OpenApp { url: "https://a.test".to_string(), name: "A".to_string() }
    );
}

#[test]
fn a_flag_can_be_the_value_of_another() {
    let intent = startup_intent(&args(&["shell", "--app-url", "--app-name", "A"]));
    assert_eq!(
        intent,
        StartupIntent::OpenApp { url: "--app-name".to_string(), name: "A".to_string() }
    );
}

#[test]
fn startup_labels_carry_the_launch_time() {
    assert_eq!(startup_label(0), "app-0");
    assert_eq!(startup_label(7), "app-7");
    assert_eq!(startup_label(10), "app-10");
    assert_eq!(startup_label(1700000000123), "app-1700000000123");
    assert_eq!(startup_label(u128::MAX), format!("app-{}", u128::MAX));
}

#[test]
fn startup_labels_differ_for_different_times() {
    assert_ne!(startup_label(1700000000123), startup_label(1700000000124));
    assert_ne!(startup_label(1), startup_label(10));
}
