//! The navigation relay: from a navigation intent, or from the identifier
//! of a menu command, to the instruction that the content surface is given.

use crate::failure::NavFailure;
use crate::text::same_text;
use vstd::prelude::*;
use vstd::string::*;

verus! {

/// What the user wants the content surface to do.
#[derive(Clone, Debug, PartialEq, Eq)]
pub enum NavigationIntent {
    /// Go one entry back in the surface's history.
    Back,
    /// Go one entry forward in the surface's history.
    Forward,
    /// Load the current page again.
    Reload,
    /// Go to the app's home address. The address named here is the
    /// sender's; the relay goes by the one its session was opened with.
    Home(String),
}

/// A [`NavigationIntent`] as plain values.
pub enum IntentView {
    Back,
    Forward,
    Reload,
    Home(Seq<char>),
}

impl View for NavigationIntent {
    type V = IntentView;

    open spec fn view(&self) -> IntentView {
        match self {
            NavigationIntent::Back => IntentView::Back,
            NavigationIntent::Forward => IntentView::Forward,
            NavigationIntent::Reload => IntentView::Reload,
            NavigationIntent::Home(target) => IntentView::Home(target@),
        }
    }
}

/// What a browsing surface is told to do.
#[derive(Clone, Debug, PartialEq, Eq)]
pub enum SurfaceInstruction {
    /// Run the script in the page's own script context.
    RunScript(String),
    /// Reload the page.
    Reload,
    /// Load the given address.
    Navigate(String),
}

/// A [`SurfaceInstruction`] as plain values.
pub enum InstructionView {
    RunScript(Seq<char>),
    Reload,
    Navigate(Seq<char>),
}

impl View for SurfaceInstruction {
    type V = InstructionView;

    open spec fn view(&self) -> InstructionView {
        match self {
            SurfaceInstruction::RunScript(script) => InstructionView::RunScript(script@),
            SurfaceInstruction::Reload => InstructionView::Reload,
            SurfaceInstruction::Navigate(target) => InstructionView::Navigate(target@),
        }
    }
}

/// The intent that a menu command stands for, if it is one of the four
/// navigation commands. `home` is the address that "home" means.
pub open spec fn intent_of_command(command: Seq<char>, home: Seq<char>) -> Option<IntentView> {
    if command == "nav_back"@ {
        Some(IntentView::Back)
    } else if command == "nav_forward"@ {
        Some(IntentView::Forward)
    } else if command == "nav_reload"@ {
        Some(IntentView::Reload)
    } else if command == "nav_home"@ {
        Some(IntentView::Home(home))
    } else {
        None
    }
}

/// The identifier of the menu command that stands for an intent.
pub open spec fn command_of(intent: IntentView) -> Seq<char> {
    match intent {
        IntentView::Back => "nav_back"@,
        IntentView::Forward => "nav_forward"@,
        IntentView::Reload => "nav_reload"@,
        IntentView::Home(_) => "nav_home"@,
    }
}

/// The instruction that carries out an intent on the content surface of a
/// session whose home address is `home`.
pub open spec fn instruction_of(intent: IntentView, home: Seq<char>) -> InstructionView {
    match intent {
        IntentView::Back => InstructionView::RunScript("window.history.back()"@),
        IntentView::Forward => InstructionView::RunScript("window.history.forward()"@),
        IntentView::Reload => InstructionView::Reload,
        IntentView::Home(_) => InstructionView::Navigate(home),
    }
}

/// The four command identifiers are pairwise different.
pub proof fn lemma_commands_differ()
    ensures
        "nav_back"@ != "nav_forward"@,
        "nav_back"@ != "nav_reload"@,
        "nav_back"@ != "nav_home"@,
        "nav_forward"@ != "nav_reload"@,
        "nav_forward"@ != "nav_home"@,
        "nav_reload"@ != "nav_home"@,
{
    reveal_strlit("nav_back");
    reveal_strlit("nav_forward");
    reveal_strlit("nav_reload");
    reveal_strlit("nav_home");
    assert("nav_back"@.len() == 8);
    assert("nav_forward"@.len() == 11);
    assert("nav_reload"@.len() == 10);
    assert("nav_home"@[4] == 'h');
    assert("nav_back"@[4] == 'b');
}

/// Reading back the command of an intent gives that intent again, with
/// the session's home address as the target of "home".
pub proof fn lemma_command_round_trip(intent: IntentView, home: Seq<char>)
    ensures
        intent_of_command(command_of(intent), home) == Some(
            match intent {
                IntentView::Home(_) => IntentView::Home(home),
                other => other,
            },
        ),
{
    lemma_commands_differ();
}

/// Whether a command comes from the menu or as an intent, the content
/// surface is given the same instruction.
pub proof fn lemma_entry_paths_agree(intent: IntentView, home: Seq<char>)
    ensures
        intent_of_command(command_of(intent), home) matches Some(read) && instruction_of(
            read,
            home,
        ) == instruction_of(intent, home),
{
    lemma_command_round_trip(intent, home);
}

/// Maps the identifier of a menu command to the intent it stands for.
/// Identifiers other than the four navigation commands map to nothing.
pub fn intent_from_command(command: &str, home: &str) -> (intent: Option<NavigationIntent>)
    ensures
        match intent {
            Some(i) => intent_of_command(command@, home@) == Some(i@),
            None => intent_of_command(command@, home@) is None,
        },
{
    if same_text(command, "nav_back") {
        Some(NavigationIntent::Back)
    } else if same_text(command, "nav_forward") {
        Some(NavigationIntent::Forward)
    } else if same_text(command, "nav_reload") {
        Some(NavigationIntent::Reload)
    } else if same_text(command, "nav_home") {
        Some(NavigationIntent::Home(String::from_str(home)))
    } else {
        None
    }
}

/// The identifier of the menu command that stands for `intent`.
pub fn command_id(intent: &NavigationIntent) -> (command: String)
    ensures
        command@ == command_of(intent@),
{
    match intent {
        NavigationIntent::Back => String::from_str("nav_back"),
        NavigationIntent::Forward => String::from_str("nav_forward"),
        NavigationIntent::Reload => String::from_str("nav_reload"),
        NavigationIntent::Home(_) => String::from_str("nav_home"),
    }
}

/// The instruction that carries out `intent` on the content surface of a
/// session opened at `home`: history moves and reloads are the browser's
/// own primitives, and "home" loads `home` whatever the intent names.
pub fn instruction_for(intent: &NavigationIntent, home: &str) -> (instruction: SurfaceInstruction)
    ensures
        instruction@ == instruction_of(intent@, home@),
{
    match intent {
        NavigationIntent::Back => SurfaceInstruction::RunScript(
            String::from_str("window.history.back()"),
        ),
        NavigationIntent::Forward => SurfaceInstruction::RunScript(
            String::from_str("window.history.forward()"),
        ),
        NavigationIntent::Reload => SurfaceInstruction::Reload,
        NavigationIntent::Home(_) => SurfaceInstruction::Navigate(String::from_str(home)),
    }
}

/// What became of an instruction handed to a surface.
#[derive(Clone, Debug, PartialEq, Eq)]
pub enum SurfaceReport {
    /// The surface took the instruction.
    Done,
    /// The surface is no longer there.
    Absent,
    /// The surface refused the instruction, with this message.
    Failed(String),
}

/// A [`SurfaceReport`] as plain values.
pub enum ReportView {
    Done,
    Absent,
    Failed(Seq<char>),
}

impl View for SurfaceReport {
    type V = ReportView;

    open spec fn view(&self) -> ReportView {
        match self {
            SurfaceReport::Done => ReportView::Done,
            SurfaceReport::Absent => ReportView::Absent,
            SurfaceReport::Failed(m) => ReportView::Failed(m@),
        }
    }
}

/// The result of a navigation dispatch. A surface that is gone makes the
/// dispatch a successful no-op: commands that arrive after a window closed
/// are expected. Only a surface that refused the instruction is a failure.
pub fn navigation_outcome(report: SurfaceReport) -> (outcome: Result<(), NavFailure>)
    ensures
        report@ is Done ==> outcome is Ok,
        report@ is Absent ==> outcome is Ok,
        report@ matches ReportView::Failed(m) ==> (outcome matches Err(f) && f@ == m),
{
    match report {
        SurfaceReport::Done => Ok(()),
        SurfaceReport::Absent => Ok(()),
        SurfaceReport::Failed(message) => Err(NavFailure { message }),
    }
}

/// One line of the navigation menu of a natively decorated window.
#[derive(Clone, Copy, Debug, PartialEq, Eq, Structural)]
pub enum MenuEntry {
    Back,
    Forward,
    Reload,
    Home,
    /// The rule between the history items and the page actions.
    Separator,
}

/// The intent that choosing a menu entry stands for; the separator stands
/// for none.
pub open spec fn entry_intent(entry: MenuEntry, home: Seq<char>) -> Option<IntentView> {
    match entry {
        MenuEntry::Back => Some(IntentView::Back),
        MenuEntry::Forward => Some(IntentView::Forward),
        MenuEntry::Reload => Some(IntentView::Reload),
        MenuEntry::Home => Some(IntentView::Home(home)),
        MenuEntry::Separator => None,
    }
}

/// The command identifier that a menu entry is registered under; the
/// separator has none.
pub open spec fn entry_command(entry: MenuEntry) -> Option<Seq<char>> {
    match entry {
        MenuEntry::Back => Some("nav_back"@),
        MenuEntry::Forward => Some("nav_forward"@),
        MenuEntry::Reload => Some("nav_reload"@),
        MenuEntry::Home => Some("nav_home"@),
        MenuEntry::Separator => None,
    }
}

/// The text shown for a menu entry: one glyph per item, nothing for the
/// separator.
pub open spec fn entry_label(entry: MenuEntry) -> Seq<char> {
    match entry {
        MenuEntry::Back => "\u{2190}"@,
        MenuEntry::Forward => "\u{2192}"@,
        MenuEntry::Reload => "\u{21bb}"@,
        MenuEntry::Home => "\u{2302}"@,
        MenuEntry::Separator => ""@,
    }
}

/// The navigation menu, top to bottom: the two history items, a rule, the
/// two page actions.
pub open spec fn menu_model() -> Seq<MenuEntry> {
    seq![
        MenuEntry::Back,
        MenuEntry::Forward,
        MenuEntry::Separator,
        MenuEntry::Reload,
        MenuEntry::Home,
    ]
}

impl MenuEntry {
    /// The identifier this entry is registered under, if it is an item.
    pub fn command(&self) -> (id: Option<String>)
        ensures
            match id {
                Some(text) => entry_command(*self) == Some(text@),
                None => entry_command(*self) is None,
            },
    {
        match self {
            MenuEntry::Back => Some(String::from_str("nav_back")),
            MenuEntry::Forward => Some(String::from_str("nav_forward")),
            MenuEntry::Reload => Some(String::from_str("nav_reload")),
            MenuEntry::Home => Some(String::from_str("nav_home")),
            MenuEntry::Separator => None,
        }
    }

    /// The text shown for this entry.
    pub fn label(&self) -> (text: String)
        ensures
            text@ == entry_label(*self),
    {
        match self {
            MenuEntry::Back => String::from_str("\u{2190}"),
            MenuEntry::Forward => String::from_str("\u{2192}"),
            MenuEntry::Reload => String::from_str("\u{21bb}"),
            MenuEntry::Home => String::from_str("\u{2302}"),
            MenuEntry::Separator => String::from_str(""),
        }
    }
}

/// Builds the navigation menu.
pub fn navigation_menu() -> (menu: Vec<MenuEntry>)
    ensures
        menu@ == menu_model(),
{
    let mut menu: Vec<MenuEntry> = Vec::new();
    menu.push(MenuEntry::Back);
    menu.push(MenuEntry::Forward);
    menu.push(MenuEntry::Separator);
    menu.push(MenuEntry::Reload);
    menu.push(MenuEntry::Home);
    menu
}

/// Every item of the menu is registered under a command that the relay
/// reads back as the intent the item stands for.
pub proof fn lemma_menu_commands_are_read(entry: MenuEntry, home: Seq<char>)
    ensures
        entry_command(entry) matches Some(id) ==> intent_of_command(id, home) == entry_intent(
            entry,
            home,
        ),
        entry_command(entry) is None <==> entry == MenuEntry::Separator,
{
    lemma_commands_differ();
}

} // verus!
