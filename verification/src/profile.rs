//! Where each session keeps its browsing profile, and what has to be done
//! to have that directory in place.

use crate::failure::{report_view, secured_view, OpenFailure, OpenFailureKind, OpenFailureView};
use vstd::prelude::*;
use vstd::string::*;

verus! {

/// The profile directory of a session: `profiles/<label>` under the data
/// directory.
pub open spec fn profile_path(base: Seq<char>, label: Seq<char>) -> Seq<char> {
    base + "/profiles/"@ + label
}

/// Derives the profile directory of the session with the given label.
pub fn profile_dir(base: &str, label: &str) -> (path: String)
    ensures
        path@ == profile_path(base@, label@),
{
    let mut path = String::from_str(base);
    path.append("/profiles/");
    path.append(label);
    path
}

/// Under one data directory, different labels give different paths, and
/// the path tells the label. Paths are compared as text: a label is taken
/// as it is given, separators and dot segments included.
pub proof fn lemma_profile_paths_distinct(base: Seq<char>, first: Seq<char>, second: Seq<char>)
    ensures
        profile_path(base, first) == profile_path(base, second) <==> first == second,
{
    let prefix = base + "/profiles/"@;
    let a = profile_path(base, first);
    let b = profile_path(base, second);
    if a == b {
        assert(a.subrange(prefix.len() as int, a.len() as int) == first);
        assert(b.subrange(prefix.len() as int, b.len() as int) == second);
    }
}

/// What has to be done to have a profile directory in place.
#[derive(Clone, Copy, Debug, PartialEq, Eq, Structural)]
pub enum ProfileStep {
    /// The directory is there already: nothing is done.
    Reuse,
    /// The directory, and any missing parent, has to be created.
    Create,
}

/// What is done about a profile directory, given whether it exists.
pub open spec fn planned(exists: bool) -> ProfileStep {
    if exists {
        ProfileStep::Reuse
    } else {
        ProfileStep::Create
    }
}

/// Decides what to do about a profile directory, given whether it exists.
/// An existing directory is reused as it is, so asking again for a
/// directory that was secured before does nothing.
pub fn plan_profile_dir(exists: bool) -> (step: ProfileStep)
    ensures
        step == planned(exists),
{
    if exists {
        ProfileStep::Reuse
    } else {
        ProfileStep::Create
    }
}

/// What securing a profile directory comes to.
pub open spec fn secured(
    path: Seq<char>,
    step: ProfileStep,
    created: Result<(), Seq<char>>,
) -> Result<Seq<char>, OpenFailureView> {
    match (step, created) {
        (ProfileStep::Reuse, _) => Ok(path),
        (ProfileStep::Create, Ok(_)) => Ok(path),
        (ProfileStep::Create, Err(m)) => Err(
            OpenFailureView { kind: OpenFailureKind::IoFailure, message: m },
        ),
    }
}

/// Turns the result of the planned step into the secured path or an I/O
/// failure. `created` is what creating the directory returned; it is not
/// looked at when the directory was reused, so reuse never fails.
pub fn profile_dir_outcome(path: String, step: ProfileStep, created: Result<(), String>) -> (r:
    Result<String, OpenFailure>)
    ensures
        step == ProfileStep::Reuse ==> r is Ok,
        secured_view(r) == secured(path@, step, report_view(created)),
{
    match step {
        ProfileStep::Reuse => Ok(path),
        ProfileStep::Create => match created {
            Ok(_) => Ok(path),
            Err(m) => Err(OpenFailure::new(OpenFailureKind::IoFailure, m)),
        },
    }
}

/// Securing the profile directory of a label again, once it exists, is a
/// no-op that cannot fail and gives the same directory as before.
pub proof fn lemma_securing_again_is_a_no_op(
    base: Seq<char>,
    label: Seq<char>,
    created: Result<(), Seq<char>>,
)
    ensures
        planned(true) == ProfileStep::Reuse,
        secured(profile_path(base, label), planned(true), created) == Ok::<
            Seq<char>,
            OpenFailureView,
        >(profile_path(base, label)),
        secured(profile_path(base, label), planned(false), Ok(())) == Ok::<
            Seq<char>,
            OpenFailureView,
        >(profile_path(base, label)),
{
}

} // verus!
