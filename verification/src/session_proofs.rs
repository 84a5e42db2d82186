//! What holds of every session, whatever events reach it.

use crate::failure::{OpenFailureKind, OpenFailureView};
use crate::layout::{layout_of, WindowSize, TOOLBAR_HEIGHT};
use crate::navigation::{command_of, lemma_command_round_trip, InstructionView, IntentView};
use crate::profile::{lemma_profile_paths_distinct, profile_path};
use crate::session::{
    opening, phase_rank, reported, requested, step_model, surface_plan_of, window_plan_of,
    ActionView, ChromeStyle, EventView, Phase, SessionView,
};
use vstd::prelude::*;

verus! {

/// The session after a run of events, taken in order.
pub open spec fn run_model(s: SessionView, events: Seq<EventView>) -> SessionView
    decreases events.len(),
{
    if events.len() == 0 {
        s
    } else {
        step_model(run_model(s, events.drop_last()), events.last()).0
    }
}

/// A closed session stays closed and asks for nothing, whatever arrives.
pub proof fn lemma_closed_answers_nothing(s: SessionView, e: EventView)
    requires
        s.phase == Phase::Closed,
    ensures
        step_model(s, e) == (s, ActionView::Idle),
{
}

/// An event changes nothing of a session but its phase: the label, the
/// address, the name, the style and with them the profile directory are
/// those it was opened with.
pub proof fn lemma_identity_is_kept(s: SessionView, e: EventView)
    ensures
        step_model(s, e).0 == s.at(step_model(s, e).0.phase),
        step_model(s, e).0.profile_dir() == s.profile_dir(),
{
}

/// A session stays in its phase, moves on to the next one, or closes. It
/// never goes back and never skips a phase.
pub proof fn lemma_phases_advance_in_order(s: SessionView, e: EventView)
    ensures
        ({
            let next = step_model(s, e).0.phase;
            next == s.phase || next == Phase::Closed || phase_rank(next) == phase_rank(s.phase)
                + 1
        }),
{
}

/// Each phase is left for the next one only on the event that reports the
/// step of that phase done.
pub proof fn lemma_each_step_is_waited_for(s: SessionView, e: EventView)
    requires
        phase_rank(step_model(s, e).0.phase) == phase_rank(s.phase) + 1,
        step_model(s, e).0.phase != Phase::Closed,
    ensures
        e == (match s.phase {
            Phase::Requested => EventView::ProfileReady,
            Phase::ProfileReady => EventView::WindowBuilt,
            Phase::WindowBuilt => EventView::SurfacesBound,
            _ => EventView::ListenersAttached,
        }),
{
}

/// A failure reported before the session is listening closes it and has
/// everything built so far abandoned: as an I/O failure if the profile
/// directory was being secured, as a window build failure afterwards.
pub proof fn lemma_failure_before_listening_closes(s: SessionView, message: Seq<char>)
    requires
        phase_rank(s.phase) < phase_rank(Phase::Listening),
    ensures
        step_model(s, EventView::StepFailed(message)).0.phase == Phase::Closed,
        step_model(s, EventView::StepFailed(message)).1 matches ActionView::Abandon(failure)
            && failure.message == message && (failure.kind == OpenFailureKind::IoFailure
            <==> s.phase == Phase::Requested) && failure.kind != OpenFailureKind::InvalidUrl,
{
}

/// A failure reported to a listening session is swallowed: resizes and
/// navigation race with the window being torn down.
pub proof fn lemma_failure_while_listening_is_swallowed(s: SessionView, message: Seq<char>)
    requires
        s.phase == Phase::Listening,
    ensures
        step_model(s, EventView::StepFailed(message)) == (s, ActionView::Idle),
{
}

/// No event makes a session ask for a profile directory: the only request
/// for one is the one made when the window is opened.
pub proof fn lemma_profile_is_asked_for_once(s: SessionView, e: EventView)
    ensures
        !(step_model(s, e).1 is EnsureProfileDir),
{
}

/// Opening a window at a well-formed address asks for the directory
/// `profiles/<label>` under the data directory, which is the session's
/// profile directory from then on; a malformed address opens nothing.
pub proof fn lemma_opening_asks_for_profile(
    verdict: Result<(), Seq<char>>,
    data_dir: Seq<char>,
    url: Seq<char>,
    label: Seq<char>,
    name: Seq<char>,
    style: ChromeStyle,
)
    ensures
        verdict is Ok ==> opening(verdict, data_dir, url, label, name, style) == Ok::<
            (SessionView, ActionView),
            OpenFailureView,
        >(
            (
                requested(data_dir, url, label, name, style),
                ActionView::EnsureProfileDir(profile_path(data_dir, label)),
            ),
        ),
        requested(data_dir, url, label, name, style).profile_dir() == profile_path(
            data_dir,
            label,
        ),
        verdict matches Err(message) ==> opening(verdict, data_dir, url, label, name, style)
            == Err::<(SessionView, ActionView), OpenFailureView>(
            OpenFailureView { kind: OpenFailureKind::InvalidUrl, message },
        ),
{
}

/// Reporting each step of an opening as done drives the session through
/// its phases in order.
pub proof fn lemma_reports_drive_the_opening(s: SessionView)
    requires
        phase_rank(s.phase) < phase_rank(Phase::Listening),
    ensures
        reported(step_action_of(s), Ok(())) matches Some(e) && phase_rank(step_model(s, e).0.phase)
            == phase_rank(s.phase) + 1,
{
}

/// The action a session is waiting on while it is being opened.
pub open spec fn step_action_of(s: SessionView) -> ActionView {
    match s.phase {
        Phase::Requested => ActionView::EnsureProfileDir(s.profile_dir()),
        Phase::ProfileReady => ActionView::BuildWindow(window_plan_of(s)),
        Phase::WindowBuilt => ActionView::BindSurfaces(surface_plan_of(s)),
        Phase::SurfacesBound => ActionView::AttachListeners,
        _ => ActionView::Idle,
    }
}

/// The course of a successful opening: once the profile directory is
/// reported ready the window is built, then the surfaces are bound to that
/// same directory, then the listeners attached, and the session listens.
pub proof fn lemma_opening_sequence(
    data_dir: Seq<char>,
    url: Seq<char>,
    label: Seq<char>,
    name: Seq<char>,
    style: ChromeStyle,
)
    ensures
        ({
            let s0 = requested(data_dir, url, label, name, style);
            let (s1, a1) = step_model(s0, EventView::ProfileReady);
            let (s2, a2) = step_model(s1, EventView::WindowBuilt);
            let (s3, a3) = step_model(s2, EventView::SurfacesBound);
            let (s4, a4) = step_model(s3, EventView::ListenersAttached);
            &&& a1 == ActionView::BuildWindow(window_plan_of(s0))
            &&& window_plan_of(s0).title == name
            &&& a2 == ActionView::BindSurfaces(surface_plan_of(s0))
            &&& surface_plan_of(s0).content_url == url
            &&& surface_plan_of(s0).profile_dir == profile_path(data_dir, label)
            &&& a3 == ActionView::AttachListeners
            &&& a4 == ActionView::Idle
            &&& s4 == s0.at(Phase::Listening)
        }),
{
}

/// Two sessions under one data directory have the same profile path only
/// if they have the same label. Paths are compared as text.
pub proof fn lemma_sessions_do_not_share_profiles(a: SessionView, b: SessionView)
    requires
        a.data_dir == b.data_dir,
        a.label != b.label,
    ensures
        a.profile_dir() != b.profile_dir(),
{
    lemma_profile_paths_distinct(a.data_dir, a.label, b.label);
}

/// Navigation sent to a session that is not listening, so also to one
/// whose surfaces are gone, is a no-op that changes nothing.
pub proof fn lemma_navigation_without_surface_is_a_no_op(
    s: SessionView,
    intent: IntentView,
    id: Seq<char>,
)
    requires
        s.phase != Phase::Listening,
    ensures
        step_model(s, EventView::NavigationRequested(intent)) == (s, ActionView::Idle),
        step_model(s, EventView::MenuActivated(id)) == (s, ActionView::Idle),
{
}

/// A menu command and the intent it stands for make a session give the
/// content surface the same instruction.
pub proof fn lemma_menu_and_intent_agree(s: SessionView, intent: IntentView)
    ensures
        step_model(s, EventView::MenuActivated(command_of(intent))) == step_model(
            s,
            EventView::NavigationRequested(intent),
        ),
{
    lemma_command_round_trip(intent, s.url);
}

/// Every resize of a listening composed window re-lays both surfaces in
/// one action, and their heights add up to the window's whenever it is at
/// least as tall as the toolbar.
pub proof fn lemma_resize_relays_both_surfaces(s: SessionView, size: WindowSize)
    requires
        s.phase == Phase::Listening,
        s.style == ChromeStyle::Composed,
    ensures
        step_model(s, EventView::Resized(size)) == (
            s,
            ActionView::ApplyLayout(layout_of(size, TOOLBAR_HEIGHT)),
        ),
        size.height >= TOOLBAR_HEIGHT ==> layout_of(size, TOOLBAR_HEIGHT).toolbar.height
            + layout_of(size, TOOLBAR_HEIGHT).content.height == size.height,
        size.height < TOOLBAR_HEIGHT ==> layout_of(size, TOOLBAR_HEIGHT).content.height == 0,
{
}

/// A run of events changes nothing of a session but its phase.
pub proof fn lemma_run_keeps_identity(s: SessionView, events: Seq<EventView>)
    ensures
        run_model(s, events) == s.at(run_model(s, events).phase),
    decreases events.len(),
{
    if events.len() > 0 {
        lemma_run_keeps_identity(s, events.drop_last());
        lemma_identity_is_kept(run_model(s, events.drop_last()), events.last());
    }
}

/// Whatever happened since a session was opened, going home loads the
/// address it was opened at, if the session is still listening, and does
/// nothing otherwise.
pub proof fn lemma_home_is_the_opening_address(
    s: SessionView,
    events: Seq<EventView>,
    target: Seq<char>,
)
    ensures
        ({
            let now = run_model(s, events);
            step_model(now, EventView::NavigationRequested(IntentView::Home(target))) == (
                now,
                if now.phase == Phase::Listening {
                    ActionView::Instruct(InstructionView::Navigate(s.url))
                } else {
                    ActionView::Idle
                },
            )
        }),
{
    lemma_run_keeps_identity(s, events);
}

/// A session holds surfaces only between their binding and the closing of
/// its window, and a toolbar only in a composed window.
pub proof fn lemma_surfaces_follow_the_phase(s: SessionView)
    ensures
        s.surfaces().len() > 0 <==> (s.phase == Phase::SurfacesBound || s.phase
            == Phase::Listening),
        s.surfaces().len() == 2 ==> s.style == ChromeStyle::Composed,
        s.at(Phase::Closed).surfaces().len() == 0,
{
}

/// Once closed, a session stays closed through any run of events.
pub proof fn lemma_closed_is_final(s: SessionView, events: Seq<EventView>)
    requires
        s.phase == Phase::Closed,
    ensures
        run_model(s, events) == s,
    decreases events.len(),
{
    if events.len() > 0 {
        lemma_closed_is_final(s, events.drop_last());
    }
}

} // verus!
