//! What the process is to do when it starts: open one app window straight
//! away, or show the launcher.

use crate::text::{decimal, push_decimal, same_text};
use vstd::prelude::*;
use vstd::string::*;

verus! {

/// What the command line asks for.
#[derive(Clone, Debug, PartialEq, Eq)]
pub enum StartupIntent {
    /// Open a window for this app and do not show the launcher.
    OpenApp { url: String, name: String },
    /// Show and focus the launcher.
    ShowLauncher,
}

/// A [`StartupIntent`] as plain values.
pub enum StartupView {
    OpenApp { url: Seq<char>, name: Seq<char> },
    ShowLauncher,
}

impl View for StartupIntent {
    type V = StartupView;

    open spec fn view(&self) -> StartupView {
        match self {
            StartupIntent::OpenApp { url, name } => StartupView::OpenApp { url: url@, name: name@ },
            StartupIntent::ShowLauncher => StartupView::ShowLauncher,
        }
    }
}

/// The value of a flag as far as the first `n` arguments tell: the
/// argument that follows the last of them that is the flag and is not the
/// last argument of all.
pub open spec fn flag_value_within(args: Seq<Seq<char>>, flag: Seq<char>, n: nat) -> Option<
    Seq<char>,
>
    decreases n,
{
    if n == 0 {
        None
    } else if n < args.len() && args[n - 1] == flag {
        Some(args[n as int])
    } else {
        flag_value_within(args, flag, (n - 1) as nat)
    }
}

/// The value of a flag on a command line.
pub open spec fn flag_value(args: Seq<Seq<char>>, flag: Seq<char>) -> Option<Seq<char>> {
    flag_value_within(args, flag, args.len())
}

/// What a command line asks for: an app window if both the address and the
/// name are given, the launcher otherwise.
pub open spec fn startup_intent_of(args: Seq<Seq<char>>) -> StartupView {
    match (flag_value(args, "--app-url"@), flag_value(args, "--app-name"@)) {
        (Some(url), Some(name)) => StartupView::OpenApp { url, name },
        _ => StartupView::ShowLauncher,
    }
}

/// A flag has a value exactly if it occurs somewhere before the last
/// argument, and its value is the argument after its last such occurrence.
pub proof fn lemma_flag_value_is_last(args: Seq<Seq<char>>, flag: Seq<char>, n: nat)
    requires
        n <= args.len(),
    ensures
        match flag_value_within(args, flag, n) {
            None => forall|i: int| 0 <= i < n && i + 1 < args.len() ==> args[i] != flag,
            Some(value) => exists|i: int|
                {
                    &&& 0 <= i < n
                    &&& i + 1 < args.len()
                    &&& #[trigger] args[i] == flag
                    &&& value == args[i + 1]
                    &&& forall|j: int| i < j < n && j + 1 < args.len() ==> args[j] != flag
                },
        },
    decreases n,
{
    if n > 0 {
        if n < args.len() && args[n - 1] == flag {
            assert(args[n - 1] == flag);
        } else {
            lemma_flag_value_is_last(args, flag, (n - 1) as nat);
            match flag_value_within(args, flag, (n - 1) as nat) {
                None => {},
                Some(value) => {
                    let i = choose|i: int|
                        {
                            &&& 0 <= i < n - 1
                            &&& i + 1 < args.len()
                            &&& #[trigger] args[i] == flag
                            &&& value == args[i + 1]
                            &&& forall|j: int|
                                i < j < n - 1 && j + 1 < args.len() ==> args[j] != flag
                        };
                    assert(args[i] == flag);
                },
            }
        }
    }
}

/// The characters of an optional string.
pub open spec fn optional_text(text: Option<String>) -> Option<Seq<char>> {
    match text {
        Some(t) => Some(t@),
        None => None,
    }
}

/// Reads the startup intent off the process arguments.
pub fn startup_intent(args: &Vec<String>) -> (intent: StartupIntent)
    ensures
        intent@ == startup_intent_of(args.deep_view()),
{
    let mut app_url: Option<String> = None;
    let mut app_name: Option<String> = None;
    let mut i: usize = 0;
    while i < args.len()
        invariant
            i <= args.len(),
            optional_text(app_url) == flag_value_within(args.deep_view(), "--app-url"@, i as nat),
            optional_text(app_name) == flag_value_within(
                args.deep_view(),
                "--app-name"@,
                i as nat,
            ),
        decreases args.len() - i,
    {
        proof {
            assert(args.deep_view()[i as int] == args@[i as int]@);
            if i + 1 < args.len() {
                assert(args.deep_view()[i + 1] == args@[i + 1]@);
            }
        }
        if i + 1 < args.len() {
            if same_text(args[i].as_str(), "--app-url") {
                app_url = Some(args[i + 1].clone());
            }
            if same_text(args[i].as_str(), "--app-name") {
                app_name = Some(args[i + 1].clone());
            }
        }
        i = i + 1;
    }
    match (app_url, app_name) {
        (Some(url), Some(name)) => StartupIntent::OpenApp { url, name },
        _ => StartupIntent::ShowLauncher,
    }
}

/// The label of a session opened at startup: `app-` and the time of the
/// launch in milliseconds.
pub open spec fn startup_label_of(millis: nat) -> Seq<char> {
    "app-"@ + decimal(millis)
}

/// Makes the label for a session opened at startup from the time of the
/// launch, in milliseconds since the epoch.
pub fn startup_label(millis: u128) -> (label: String)
    ensures
        label@ == startup_label_of(millis as nat),
{
    let mut label = String::from_str("app-");
    push_decimal(&mut label, millis);
    label
}

/// Launches at different times get different labels.
pub proof fn lemma_startup_labels_differ(first: nat, second: nat)
    ensures
        startup_label_of(first) == startup_label_of(second) <==> first == second,
{
    let a = startup_label_of(first);
    let b = startup_label_of(second);
    if a == b {
        let k = "app-"@.len() as int;
        assert(a.subrange(k, a.len() as int) == decimal(first));
        assert(b.subrange(k, b.len() as int) == decimal(second));
        crate::text::lemma_decimal_injective(first, second);
    }
}

} // verus!
