//! The ways an operation of the shell can fail, each carrying the message
//! that is shown to whoever asked for the operation.

use vstd::prelude::*;
use vstd::string::*;

verus! {

/// Why a window could not be opened.
#[derive(Clone, Copy, Debug, PartialEq, Eq, Structural)]
pub enum OpenFailureKind {
    /// The address is not a well-formed absolute URL.
    InvalidUrl,
    /// The profile directory could not be created.
    IoFailure,
    /// The window or one of its surfaces could not be constructed.
    WindowBuildFailure,
}

/// A failed attempt to open a window.
#[derive(Clone, Debug, PartialEq, Eq)]
pub struct OpenFailure {
    pub kind: OpenFailureKind,
    pub message: String,
}

/// What an [`OpenFailure`] is, as plain values.
pub struct OpenFailureView {
    pub kind: OpenFailureKind,
    pub message: Seq<char>,
}

impl View for OpenFailure {
    type V = OpenFailureView;

    open spec fn view(&self) -> OpenFailureView {
        OpenFailureView { kind: self.kind, message: self.message@ }
    }
}

impl OpenFailure {
    /// A failure of the given kind with the given message.
    pub fn new(kind: OpenFailureKind, message: String) -> (failure: OpenFailure)
        ensures
            failure@ == (OpenFailureView { kind, message: message@ }),
    {
        OpenFailure { kind, message }
    }

    /// The message to show for this failure.
    pub fn to_message(&self) -> (text: String)
        ensures
            text@ == self@.message,
    {
        self.message.clone()
    }
}

/// A unit-or-message result, with the message as plain characters.
pub open spec fn report_view(r: Result<(), String>) -> Result<(), Seq<char>> {
    match r {
        Ok(_) => Ok(()),
        Err(m) => Err(m@),
    }
}

/// A path-or-failure result as plain values.
pub open spec fn secured_view(r: Result<String, OpenFailure>) -> Result<Seq<char>, OpenFailureView> {
    match r {
        Ok(p) => Ok(p@),
        Err(f) => Err(f@),
    }
}

/// A navigation instruction that the content surface did not carry out.
/// It is meant for the log: navigation never blocks on it.
#[derive(Clone, Debug, PartialEq, Eq)]
pub struct NavFailure {
    pub message: String,
}

impl View for NavFailure {
    type V = Seq<char>;

    open spec fn view(&self) -> Seq<char> {
        self.message@
    }
}

/// A desktop shortcut that could not be created.
#[derive(Clone, Debug, PartialEq, Eq)]
pub struct ShortcutFailure {
    pub message: String,
}

impl View for ShortcutFailure {
    type V = Seq<char>;

    open spec fn view(&self) -> Seq<char> {
        self.message@
    }
}

} // verus!
