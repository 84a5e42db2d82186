//! One app window from request to close.
//!
//! A session never acts on its own. Opening it, and every event handed to
//! it afterwards, yields the one action that the embedding program is to
//! perform next; the outcome of that action comes back as the next event.

use crate::address::{is_absolute_url, parse_check, parse_verdict};
use crate::encoding::{toolbar_page, toolbar_page_text};
use crate::failure::{report_view, OpenFailure, OpenFailureKind, OpenFailureView};
use crate::layout::{
    compute_layout, initial_size, layout_of, ChromeLayout, WindowSize, INITIAL_HEIGHT,
    INITIAL_WIDTH, TOOLBAR_HEIGHT,
};
use crate::navigation::{
    instruction_for, instruction_of, intent_from_command, intent_of_command, menu_model,
    navigation_menu, InstructionView, IntentView, MenuEntry, NavigationIntent,
    SurfaceInstruction,
};
use crate::profile::{profile_dir, profile_path};
use vstd::prelude::*;
use vstd::string::*;

verus! {

/// How a window is decorated and steered.
#[derive(Clone, Copy, Debug, PartialEq, Eq, Structural)]
pub enum ChromeStyle {
    /// An undecorated window made of a toolbar surface above a content
    /// surface.
    Composed,
    /// A natively decorated window with a single surface and a navigation
    /// menu.
    NativeMenu,
}

/// How far a session has come.
#[derive(Clone, Copy, Debug, PartialEq, Eq, Structural)]
pub enum Phase {
    Requested,
    ProfileReady,
    WindowBuilt,
    SurfacesBound,
    Listening,
    Closed,
}

/// The position of a phase in the life of a session.
pub open spec fn phase_rank(phase: Phase) -> nat {
    match phase {
        Phase::Requested => 0,
        Phase::ProfileReady => 1,
        Phase::WindowBuilt => 2,
        Phase::SurfacesBound => 3,
        Phase::Listening => 4,
        Phase::Closed => 5,
    }
}

/// One open app window.
#[derive(Clone, Debug, PartialEq, Eq)]
pub struct SessionHandle {
    data_dir: String,
    label: String,
    url: String,
    name: String,
    style: ChromeStyle,
    phase: Phase,
}

/// A [`SessionHandle`] as plain values.
pub struct SessionView {
    pub data_dir: Seq<char>,
    pub label: Seq<char>,
    pub url: Seq<char>,
    pub name: Seq<char>,
    pub style: ChromeStyle,
    pub phase: Phase,
}

impl SessionView {
    /// The directory that holds this session's browsing profile.
    pub open spec fn profile_dir(self) -> Seq<char> {
        profile_path(self.data_dir, self.label)
    }

    /// The label of this session's window.
    pub open spec fn window_label(self) -> Seq<char> {
        "win-"@ + self.label
    }

    /// Whether the content surface is bound.
    pub open spec fn has_content(self) -> bool {
        self.phase == Phase::SurfacesBound || self.phase == Phase::Listening
    }

    /// Whether a toolbar surface is bound.
    pub open spec fn has_toolbar(self) -> bool {
        self.style == ChromeStyle::Composed && self.has_content()
    }

    /// The names of the surfaces that are bound, top to bottom.
    pub open spec fn surfaces(self) -> Seq<Seq<char>> {
        if self.has_toolbar() {
            seq!["toolbar"@, "content"@]
        } else if self.has_content() {
            seq!["content"@]
        } else {
            Seq::empty()
        }
    }

    /// This session in another phase.
    pub open spec fn at(self, phase: Phase) -> SessionView {
        SessionView { phase, ..self }
    }
}

impl View for SessionHandle {
    type V = SessionView;

    closed spec fn view(&self) -> SessionView {
        SessionView {
            data_dir: self.data_dir@,
            label: self.label@,
            url: self.url@,
            name: self.name@,
            style: self.style,
            phase: self.phase,
        }
    }
}

/// The window to build for a session.
#[derive(Clone, Debug, PartialEq, Eq)]
pub struct WindowPlan {
    pub label: String,
    pub title: String,
    pub size: WindowSize,
    pub decorations: bool,
}

/// A [`WindowPlan`] as plain values.
pub struct WindowPlanView {
    pub label: Seq<char>,
    pub title: Seq<char>,
    pub size: WindowSize,
    pub decorations: bool,
}

impl View for WindowPlan {
    type V = WindowPlanView;

    open spec fn view(&self) -> WindowPlanView {
        WindowPlanView {
            label: self.label@,
            title: self.title@,
            size: self.size,
            decorations: self.decorations,
        }
    }
}

/// The surfaces to attach to a session's window.
#[derive(Clone, Debug, PartialEq, Eq)]
pub struct SurfacePlan {
    /// The page of the toolbar surface; none where the window has no
    /// toolbar.
    pub toolbar_page: Option<String>,
    /// Where the surfaces lie in the freshly built window.
    pub layout: ChromeLayout,
    /// The address that the content surface loads.
    pub content_url: String,
    /// The directory that the content surface keeps its browsing state in.
    pub profile_dir: String,
    /// The navigation menu; empty where the window has a toolbar.
    pub menu: Vec<MenuEntry>,
}

/// A [`SurfacePlan`] as plain values.
pub struct SurfacePlanView {
    pub toolbar_page: Option<Seq<char>>,
    pub layout: ChromeLayout,
    pub content_url: Seq<char>,
    pub profile_dir: Seq<char>,
    pub menu: Seq<MenuEntry>,
}

impl View for SurfacePlan {
    type V = SurfacePlanView;

    open spec fn view(&self) -> SurfacePlanView {
        SurfacePlanView {
            toolbar_page: match self.toolbar_page {
                Some(page) => Some(page@),
                None => None,
            },
            layout: self.layout,
            content_url: self.content_url@,
            profile_dir: self.profile_dir@,
            menu: self.menu@,
        }
    }
}

/// What the embedding program is asked to do next.
#[derive(Clone, Debug, PartialEq, Eq)]
pub enum SessionAction {
    /// Make sure the directory exists, creating it and its parents if
    /// needed.
    EnsureProfileDir(String),
    /// Build the window.
    BuildWindow(WindowPlan),
    /// Attach the surfaces, and the menu if there is one.
    BindSurfaces(SurfacePlan),
    /// Start delivering resize, menu and close events of the window.
    AttachListeners,
    /// Give both surfaces their new bounds, before the next paint.
    ApplyLayout(ChromeLayout),
    /// Hand the instruction to the content surface.
    Instruct(SurfaceInstruction),
    /// Tear down whatever was built and report the failure to the caller.
    Abandon(OpenFailure),
    /// Let go of the window and its surfaces.
    Release,
    /// Nothing.
    Idle,
}

/// A [`SessionAction`] as plain values.
pub enum ActionView {
    EnsureProfileDir(Seq<char>),
    BuildWindow(WindowPlanView),
    BindSurfaces(SurfacePlanView),
    AttachListeners,
    ApplyLayout(ChromeLayout),
    Instruct(InstructionView),
    Abandon(OpenFailureView),
    Release,
    Idle,
}

impl View for SessionAction {
    type V = ActionView;

    open spec fn view(&self) -> ActionView {
        match self {
            SessionAction::EnsureProfileDir(path) => ActionView::EnsureProfileDir(path@),
            SessionAction::BuildWindow(plan) => ActionView::BuildWindow(plan@),
            SessionAction::BindSurfaces(plan) => ActionView::BindSurfaces(plan@),
            SessionAction::AttachListeners => ActionView::AttachListeners,
            SessionAction::ApplyLayout(layout) => ActionView::ApplyLayout(*layout),
            SessionAction::Instruct(instruction) => ActionView::Instruct(instruction@),
            SessionAction::Abandon(failure) => ActionView::Abandon(failure@),
            SessionAction::Release => ActionView::Release,
            SessionAction::Idle => ActionView::Idle,
        }
    }
}

/// What happened outside, as far as a session is concerned.
#[derive(Clone, Debug, PartialEq, Eq)]
pub enum SessionEvent {
    /// The profile directory is in place.
    ProfileReady,
    /// The window was built.
    WindowBuilt,
    /// The surfaces were attached.
    SurfacesBound,
    /// The window's events are being delivered.
    ListenersAttached,
    /// The action asked for last failed, with this message.
    StepFailed(String),
    /// The window has a new inner size.
    Resized(WindowSize),
    /// The menu command with this identifier was chosen.
    MenuActivated(String),
    /// A navigation was asked for.
    NavigationRequested(NavigationIntent),
    /// The window was closed.
    WindowClosed,
}

/// A [`SessionEvent`] as plain values.
pub enum EventView {
    ProfileReady,
    WindowBuilt,
    SurfacesBound,
    ListenersAttached,
    StepFailed(Seq<char>),
    Resized(WindowSize),
    MenuActivated(Seq<char>),
    NavigationRequested(IntentView),
    WindowClosed,
}

impl View for SessionEvent {
    type V = EventView;

    open spec fn view(&self) -> EventView {
        match self {
            SessionEvent::ProfileReady => EventView::ProfileReady,
            SessionEvent::WindowBuilt => EventView::WindowBuilt,
            SessionEvent::SurfacesBound => EventView::SurfacesBound,
            SessionEvent::ListenersAttached => EventView::ListenersAttached,
            SessionEvent::StepFailed(m) => EventView::StepFailed(m@),
            SessionEvent::Resized(size) => EventView::Resized(*size),
            SessionEvent::MenuActivated(id) => EventView::MenuActivated(id@),
            SessionEvent::NavigationRequested(intent) => EventView::NavigationRequested(intent@),
            SessionEvent::WindowClosed => EventView::WindowClosed,
        }
    }
}

/// The height of the toolbar under a chrome style: a natively decorated
/// window has none.
pub open spec fn toolbar_height_of(style: ChromeStyle) -> u32 {
    match style {
        ChromeStyle::Composed => TOOLBAR_HEIGHT,
        ChromeStyle::NativeMenu => 0,
    }
}

/// The window that is built for a session: labelled after the session,
/// titled with the app's name, of the fixed initial size, and decorated by
/// the system only where the chrome is native.
pub open spec fn window_plan_of(s: SessionView) -> WindowPlanView {
    WindowPlanView {
        label: s.window_label(),
        title: s.name,
        size: initial_size(),
        decorations: s.style == ChromeStyle::NativeMenu,
    }
}

/// The surfaces that are attached for a session. The content surface loads
/// the app's address as it was given and keeps its state in the session's
/// profile directory. A composed window adds the toolbar page above it; a
/// native one adds the navigation menu.
pub open spec fn surface_plan_of(s: SessionView) -> SurfacePlanView {
    SurfacePlanView {
        toolbar_page: match s.style {
            ChromeStyle::Composed => Some(toolbar_page_text(s.url, s.name)),
            ChromeStyle::NativeMenu => None,
        },
        layout: layout_of(initial_size(), toolbar_height_of(s.style)),
        content_url: s.url,
        profile_dir: s.profile_dir(),
        menu: match s.style {
            ChromeStyle::Composed => Seq::empty(),
            ChromeStyle::NativeMenu => menu_model(),
        },
    }
}

/// The failure that a failed step amounts to: before the profile directory
/// is in place it is an I/O failure, afterwards a window build failure.
pub open spec fn failure_of(phase: Phase, message: Seq<char>) -> OpenFailureView {
    OpenFailureView {
        kind: if phase == Phase::Requested {
            OpenFailureKind::IoFailure
        } else {
            OpenFailureKind::WindowBuildFailure
        },
        message,
    }
}

/// The session that a request starts as.
pub open spec fn requested(
    data_dir: Seq<char>,
    url: Seq<char>,
    label: Seq<char>,
    name: Seq<char>,
    style: ChromeStyle,
) -> SessionView {
    SessionView { data_dir, label, url, name, style, phase: Phase::Requested }
}

/// What opening a window comes to, given what the URL parser made of the
/// address: a malformed address is refused before anything is created;
/// otherwise the session starts by asking for its profile directory.
pub open spec fn opening(
    verdict: Result<(), Seq<char>>,
    data_dir: Seq<char>,
    url: Seq<char>,
    label: Seq<char>,
    name: Seq<char>,
    style: ChromeStyle,
) -> Result<(SessionView, ActionView), OpenFailureView> {
    match verdict {
        Err(message) => Err(OpenFailureView { kind: OpenFailureKind::InvalidUrl, message }),
        Ok(_) => Ok(
            (
                requested(data_dir, url, label, name, style),
                ActionView::EnsureProfileDir(profile_path(data_dir, label)),
            ),
        ),
    }
}

/// The result of opening a window as plain values.
pub open spec fn opening_view(r: Result<(SessionHandle, SessionAction), OpenFailure>) -> Result<
    (SessionView, ActionView),
    OpenFailureView,
> {
    match r {
        Ok((session, action)) => Ok((session@, action@)),
        Err(failure) => Err(failure@),
    }
}

/// The event that reports how an action ended. A failure is reported
/// whatever the action was; a success is reported for the four steps of
/// opening a window, each by the event its phase waits for, and for
/// nothing else.
pub open spec fn reported(action: ActionView, result: Result<(), Seq<char>>) -> Option<
    EventView,
> {
    match result {
        Err(message) => Some(EventView::StepFailed(message)),
        Ok(_) => match action {
            ActionView::EnsureProfileDir(_) => Some(EventView::ProfileReady),
            ActionView::BuildWindow(_) => Some(EventView::WindowBuilt),
            ActionView::BindSurfaces(_) => Some(EventView::SurfacesBound),
            ActionView::AttachListeners => Some(EventView::ListenersAttached),
            _ => None,
        },
    }
}

/// The transition function of a session: the state after an event, and the
/// action the event calls for.
///
/// A session advances one phase at a time, each time on the event that
/// reports the action of the phase before. A failure before the session is
/// listening closes it. Once listening, resizes re-lay the surfaces of a
/// composed window and navigation goes to the content surface. Closing the
/// window closes the session, and a closed session answers nothing.
pub open spec fn step_model(s: SessionView, e: EventView) -> (SessionView, ActionView) {
    if s.phase == Phase::Closed {
        (s, ActionView::Idle)
    } else {
        match e {
            EventView::WindowClosed => (s.at(Phase::Closed), ActionView::Release),
            EventView::StepFailed(message) => if s.phase == Phase::Listening {
                (s, ActionView::Idle)
            } else {
                (s.at(Phase::Closed), ActionView::Abandon(failure_of(s.phase, message)))
            },
            EventView::ProfileReady => if s.phase == Phase::Requested {
                (s.at(Phase::ProfileReady), ActionView::BuildWindow(window_plan_of(s)))
            } else {
                (s, ActionView::Idle)
            },
            EventView::WindowBuilt => if s.phase == Phase::ProfileReady {
                (s.at(Phase::WindowBuilt), ActionView::BindSurfaces(surface_plan_of(s)))
            } else {
                (s, ActionView::Idle)
            },
            EventView::SurfacesBound => if s.phase == Phase::WindowBuilt {
                (s.at(Phase::SurfacesBound), ActionView::AttachListeners)
            } else {
                (s, ActionView::Idle)
            },
            EventView::ListenersAttached => if s.phase == Phase::SurfacesBound {
                (s.at(Phase::Listening), ActionView::Idle)
            } else {
                (s, ActionView::Idle)
            },
            EventView::Resized(size) => if s.phase == Phase::Listening && s.style
                == ChromeStyle::Composed {
                (s, ActionView::ApplyLayout(layout_of(size, TOOLBAR_HEIGHT)))
            } else {
                (s, ActionView::Idle)
            },
            EventView::MenuActivated(id) => if s.phase == Phase::Listening {
                match intent_of_command(id, s.url) {
                    Some(intent) => (s, ActionView::Instruct(instruction_of(intent, s.url))),
                    None => (s, ActionView::Idle),
                }
            } else {
                (s, ActionView::Idle)
            },
            EventView::NavigationRequested(intent) => if s.phase == Phase::Listening {
                (s, ActionView::Instruct(instruction_of(intent, s.url)))
            } else {
                (s, ActionView::Idle)
            },
        }
    }
}

/// Opens a window for the app at `url`: checks the address and, if it is
/// an absolute URL, starts a session that first asks for its profile
/// directory `profiles/<label>` under `data_dir`.
pub fn open_app_window(
    data_dir: String,
    url: String,
    label: String,
    name: String,
    style: ChromeStyle,
) -> (r: Result<(SessionHandle, SessionAction), OpenFailure>)
    ensures
        opening_view(r) == opening(parse_verdict(url@), data_dir@, url@, label@, name@, style),
        r is Ok <==> is_absolute_url(url@),
{
    let verdict = parse_check(url.as_str());
    begin_session(verdict, data_dir, url, label, name, style)
}

/// Starts a session for an address that the URL parser has been asked
/// about: `verdict` is what it said.
pub fn begin_session(
    verdict: Result<(), String>,
    data_dir: String,
    url: String,
    label: String,
    name: String,
    style: ChromeStyle,
) -> (r: Result<(SessionHandle, SessionAction), OpenFailure>)
    ensures
        opening_view(r) == opening(report_view(verdict), data_dir@, url@, label@, name@, style),
{
    match verdict {
        Err(message) => Err(OpenFailure::new(OpenFailureKind::InvalidUrl, message)),
        Ok(_) => {
            let path = profile_dir(data_dir.as_str(), label.as_str());
            let session = SessionHandle {
                data_dir,
                label,
                url,
                name,
                style,
                phase: Phase::Requested,
            };
            Ok((session, SessionAction::EnsureProfileDir(path)))
        },
    }
}

/// Makes the event that reports how `action` ended, if there is one to
/// make.
pub fn report_event(action: &SessionAction, result: Result<(), String>) -> (event: Option<
    SessionEvent,
>)
    ensures
        match event {
            Some(e) => reported(action@, report_view(result)) == Some(e@),
            None => reported(action@, report_view(result)) is None,
        },
{
    match result {
        Err(message) => Some(SessionEvent::StepFailed(message)),
        Ok(_) => match action {
            SessionAction::EnsureProfileDir(_) => Some(SessionEvent::ProfileReady),
            SessionAction::BuildWindow(_) => Some(SessionEvent::WindowBuilt),
            SessionAction::BindSurfaces(_) => Some(SessionEvent::SurfacesBound),
            SessionAction::AttachListeners => Some(SessionEvent::ListenersAttached),
            _ => None,
        },
    }
}

impl SessionHandle {
    /// The label this session was opened under.
    pub fn label(&self) -> (label: &str)
        ensures
            label@ == self@.label,
    {
        self.label.as_str()
    }

    /// The address this session was opened at, which is its home.
    pub fn url(&self) -> (url: &str)
        ensures
            url@ == self@.url,
    {
        self.url.as_str()
    }

    /// The display name of the app.
    pub fn name(&self) -> (name: &str)
        ensures
            name@ == self@.name,
    {
        self.name.as_str()
    }

    /// The chrome style of the window.
    pub fn style(&self) -> (style: ChromeStyle)
        ensures
            style == self@.style,
    {
        self.style
    }

    /// How far the session has come.
    pub fn phase(&self) -> (phase: Phase)
        ensures
            phase == self@.phase,
    {
        self.phase
    }

    /// The directory that holds this session's browsing profile.
    pub fn profile_dir(&self) -> (path: String)
        ensures
            path@ == self@.profile_dir(),
    {
        profile_dir(self.data_dir.as_str(), self.label.as_str())
    }

    /// The label of this session's window.
    pub fn window_label(&self) -> (label: String)
        ensures
            label@ == self@.window_label(),
    {
        let mut label = String::from_str("win-");
        label.append(self.label.as_str());
        label
    }

    /// Whether the content surface is bound.
    pub fn has_content(&self) -> (bound: bool)
        ensures
            bound == self@.has_content(),
    {
        match self.phase {
            Phase::SurfacesBound => true,
            Phase::Listening => true,
            _ => false,
        }
    }

    /// Whether a toolbar surface is bound.
    pub fn has_toolbar(&self) -> (bound: bool)
        ensures
            bound == self@.has_toolbar(),
    {
        match self.style {
            ChromeStyle::Composed => self.has_content(),
            ChromeStyle::NativeMenu => false,
        }
    }

    /// The names of the surfaces that are bound, top to bottom: none
    /// before the surfaces are attached and none once the window closed.
    pub fn surface_names(&self) -> (names: Vec<String>)
        ensures
            names.deep_view() == self@.surfaces(),
    {
        let mut names: Vec<String> = Vec::new();
        if self.has_toolbar() {
            names.push(String::from_str("toolbar"));
        }
        if self.has_content() {
            names.push(String::from_str("content"));
        }
        proof {
            assert(names.deep_view() =~= self@.surfaces());
        }
        names
    }

    fn window_plan(&self) -> (plan: WindowPlan)
        ensures
            plan@ == window_plan_of(self@),
    {
        WindowPlan {
            label: self.window_label(),
            title: self.name.clone(),
            size: WindowSize { width: INITIAL_WIDTH, height: INITIAL_HEIGHT },
            decorations: match self.style {
                ChromeStyle::Composed => false,
                ChromeStyle::NativeMenu => true,
            },
        }
    }

    fn surface_plan(&self) -> (plan: SurfacePlan)
        ensures
            plan@ == surface_plan_of(self@),
    {
        let size = WindowSize { width: INITIAL_WIDTH, height: INITIAL_HEIGHT };
        match self.style {
            ChromeStyle::Composed => SurfacePlan {
                toolbar_page: Some(toolbar_page(self.url.as_str(), self.name.as_str())),
                layout: compute_layout(size, TOOLBAR_HEIGHT),
                content_url: self.url.clone(),
                profile_dir: self.profile_dir(),
                menu: Vec::new(),
            },
            ChromeStyle::NativeMenu => SurfacePlan {
                toolbar_page: None,
                layout: compute_layout(size, 0),
                content_url: self.url.clone(),
                profile_dir: self.profile_dir(),
                menu: navigation_menu(),
            },
        }
    }

    fn moved_to(self, phase: Phase) -> (next: SessionHandle)
        ensures
            next@ == self@.at(phase),
    {
        SessionHandle {
            data_dir: self.data_dir,
            label: self.label,
            url: self.url,
            name: self.name,
            style: self.style,
            phase,
        }
    }

    /// Relays a navigation intent: a listening session has the content
    /// surface instructed; any other, be it not yet listening or closed
    /// with its surfaces gone, lets the intent pass as a no-op.
    pub fn dispatch(&self, intent: &NavigationIntent) -> (action: SessionAction)
        ensures
            action@ == (if self@.phase == Phase::Listening {
                ActionView::Instruct(instruction_of(intent@, self@.url))
            } else {
                ActionView::Idle
            }),
    {
        match self.phase {
            Phase::Listening => SessionAction::Instruct(
                instruction_for(intent, self.url.as_str()),
            ),
            _ => SessionAction::Idle,
        }
    }

    /// Takes one event and answers with the session's next state and the
    /// action to perform.
    pub fn step(self, event: SessionEvent) -> (r: (SessionHandle, SessionAction))
        ensures
            (r.0@, r.1@) == step_model(self@, event@),
    {
        if let Phase::Closed = self.phase {
            return (self, SessionAction::Idle);
        }
        match event {
            SessionEvent::WindowClosed => (self.moved_to(Phase::Closed), SessionAction::Release),
            SessionEvent::StepFailed(message) => match self.phase {
                Phase::Listening => (self, SessionAction::Idle),
                Phase::Requested => (
                    self.moved_to(Phase::Closed),
                    SessionAction::Abandon(OpenFailure::new(OpenFailureKind::IoFailure, message)),
                ),
                _ => (
                    self.moved_to(Phase::Closed),
                    SessionAction::Abandon(
                        OpenFailure::new(OpenFailureKind::WindowBuildFailure, message),
                    ),
                ),
            },
            SessionEvent::ProfileReady => match self.phase {
                Phase::Requested => {
                    let plan = self.window_plan();
                    (self.moved_to(Phase::ProfileReady), SessionAction::BuildWindow(plan))
                },
                _ => (self, SessionAction::Idle),
            },
            SessionEvent::WindowBuilt => match self.phase {
                Phase::ProfileReady => {
                    let plan = self.surface_plan();
                    (self.moved_to(Phase::WindowBuilt), SessionAction::BindSurfaces(plan))
                },
                _ => (self, SessionAction::Idle),
            },
            SessionEvent::SurfacesBound => match self.phase {
                Phase::WindowBuilt => (
                    self.moved_to(Phase::SurfacesBound),
                    SessionAction::AttachListeners,
                ),
                _ => (self, SessionAction::Idle),
            },
            SessionEvent::ListenersAttached => match self.phase {
                Phase::SurfacesBound => (self.moved_to(Phase::Listening), SessionAction::Idle),
                _ => (self, SessionAction::Idle),
            },
            SessionEvent::Resized(size) => match (self.phase, self.style) {
                (Phase::Listening, ChromeStyle::Composed) => {
                    let layout = compute_layout(size, TOOLBAR_HEIGHT);
                    (self, SessionAction::ApplyLayout(layout))
                },
                _ => (self, SessionAction::Idle),
            },
            SessionEvent::MenuActivated(id) => match self.phase {
                Phase::Listening => {
                    let action = match intent_from_command(id.as_str(), self.url.as_str()) {
                        Some(intent) => self.dispatch(&intent),
                        None => SessionAction::Idle,
                    };
                    (self, action)
                },
                _ => (self, SessionAction::Idle),
            },
            SessionEvent::NavigationRequested(intent) => {
                let action = self.dispatch(&intent);
                (self, action)
            },
        }
    }
}

} // verus!
