use app_shell::address::check_address;
use app_shell::failure::{OpenFailure, OpenFailureKind};
use app_shell::layout::{Bounds, ChromeLayout, WindowSize};
use app_shell::navigation::{navigation_menu, NavigationIntent, SurfaceInstruction};
use app_shell::session::{
    begin_session, open_app_window, report_event, ChromeStyle, Phase, SessionAction,
    SessionEvent, SessionHandle, SurfacePlan, WindowPlan,
};

fn open_example(style: ChromeStyle) -> (SessionHandle, SessionAction) {
    open_app_window(
        "/data".to_string(),
        "https://example.com".to_string(),
        "ex1".to_string(),
        "Example".to_string(),
        style,
    )
    .unwrap()
}

fn listening_example(style: ChromeStyle) -> SessionHandle {
    let (session, _) = open_example(style);
    let (session, _) = session.step(SessionEvent::ProfileReady);
    let (session, _) = session.step(SessionEvent::WindowBuilt);
    let (session, _) = session.step(SessionEvent::SurfacesBound);
    let (session, _) = session.step(SessionEvent::ListenersAttached);
    assert_eq!(session.phase(), Phase::Listening);
    session
}

#[test]
fn open_resize_and_go_home() {
    let (session, action) = open_example(ChromeStyle::Composed);
    assert_eq!(action, SessionAction::EnsureProfileDir("/data/profiles/ex1".to_string()));
    assert_eq!(session.phase(), Phase::Requested);
    assert_eq!(session.profile_dir(), "/data/profiles/ex1");

    let (session, action) = session.step(SessionEvent::ProfileReady);
    assert_eq!(
        action,
        SessionAction::BuildWindow(WindowPlan {
            label: "win-ex1".to_string(),
            title: "Example".to_string(),
            size: WindowSize { width: 1200, height: 800 },
            decorations: false,
        })
    );

    let (session, action) = session.step(SessionEvent::WindowBuilt);
    assert_eq!(
        action,
        SessionAction::BindSurfaces(SurfacePlan {
            toolbar_page: Some(
                "index.html?mode=toolbar&url=https%3A%2F%2Fexample.com&name=Example".to_string()
            ),
            layout: ChromeLayout {
                toolbar: Bounds { x: 0, y: 0, width: 1200, height: 50 },
                content: Bounds { x: 0, y: 50, width: 1200, height: 750 },
            },
            content_url: "https://example.com".to_string(),
            profile_dir: "/data/profiles/ex1".to_string(),
            menu: vec![],
        })
    );

    let (session, action) = session.step(SessionEvent::SurfacesBound);
    assert_eq!(action, SessionAction::AttachListeners);
    assert!(session.has_content());
    assert!(session.has_toolbar());

    let (session, action) = session.step(SessionEvent::ListenersAttached);
    assert_eq!(action, SessionAction::Idle);
    assert_eq!(session.phase(), Phase::Listening);

    let (session, action) =
        session.step(SessionEvent::Resized(WindowSize { width: 800, height: 600 }));
    assert_eq!(
        action,
        SessionAction::ApplyLayout(ChromeLayout {
            toolbar: Bounds { x: 0, y: 0, width: 800, height: 50 },
            content: Bounds { x: 0, y: 50, width: 800, height: 550 },
        })
    );

    let (session, _) = session.step(SessionEvent::NavigationRequested(NavigationIntent::Back));
    let (session, _) = session.step(SessionEvent::MenuActivated("nav_forward".to_string()));
    let (session, action) = session.step(SessionEvent::NavigationRequested(
        NavigationIntent::Home("https://elsewhere.test".to_string()),
    ));
    assert_eq!(
        action,
        SessionAction::Instruct(SurfaceInstruction::Navigate("https://example.com".to_string()))
    );
    assert_eq!(session.url(), "https://example.com");
    assert_eq!(session.label(), "ex1");
    assert_eq!(session.name(), "Example");
}

#[test]
fn malformed_address_opens_nothing() {
    let r = open_app_window(
        "/data".to_string(),
        "example.com/no-scheme".to_string(),
        "ex1".to_string(),
        "Example".to_string(),
        ChromeStyle::Composed,
    );
    assert_eq!(
        r,
        Err(OpenFailure {
            kind: OpenFailureKind::InvalidUrl,
            message: "relative URL without a base".to_string(),
        })
    );
}

#[test]
fn empty_address_opens_nothing() {
    let r = open_app_window(
        "/data".to_string(),
        String::new(),
        "ex1".to_string(),
        "Example".to_string(),
        ChromeStyle::NativeMenu,
    );
    assert_eq!(r.unwrap_err().kind, OpenFailureKind::InvalidUrl);
}

#[test]
fn address_with_a_bad_port_opens_nothing() {
    let r = open_app_window(
        "/data".to_string(),
        "https://example.com:99999/".to_string(),
        "ex1".to_string(),
        "Example".to_string(),
        ChromeStyle::Composed,
    );
    let failure = r.unwrap_err();
    assert_eq!(failure.kind, OpenFailureKind::InvalidUrl);
    assert_eq!(failure.message, "invalid port number");
    assert_eq!(failure.to_message(), "invalid port number");
}

#[test]
fn begin_session_goes_by_the_verdict_it_is_given() {
    let refused = begin_session(
        Err("empty host".to_string()),
        "/data".to_string(),
        "https://".to_string(),
        "l".to_string(),
        "n".to_string(),
        ChromeStyle::Composed,
    );
    assert_eq!(
        refused,
        Err(OpenFailure { kind: OpenFailureKind::InvalidUrl, message: "empty host".to_string() })
    );
    let (session, action) = begin_session(
        Ok(()),
        "/data".to_string(),
        "https://a.test".to_string(),
        "l".to_string(),
        "n".to_string(),
        ChromeStyle::Composed,
    )
    .unwrap();
    assert_eq!(action, SessionAction::EnsureProfileDir("/data/profiles/l".to_string()));
    assert_eq!(session.window_label(), "win-l");
}

#[test]
fn profile_failure_is_an_io_failure_and_closes() {
    let (session, _) = open_example(ChromeStyle::Composed);
    let (session, action) = session.step(SessionEvent::StepFailed("permission denied".to_string()));
    assert_eq!(
        action,
        SessionAction::Abandon(OpenFailure {
            kind: OpenFailureKind::IoFailure,
            message: "permission denied".to_string(),
        })
    );
    assert_eq!(session.phase(), Phase::Closed);
    let (session, action) = session.step(SessionEvent::ProfileReady);
    assert_eq!(action, SessionAction::Idle);
    assert_eq!(session.phase(), Phase::Closed);
}

#[test]
fn later_failures_are_window_build_failures() {
    let events = [
        vec![SessionEvent::ProfileReady],
        vec![SessionEvent::ProfileReady, SessionEvent::WindowBuilt],
        vec![SessionEvent::ProfileReady, SessionEvent::WindowBuilt, SessionEvent::SurfacesBound],
    ];
    for done in events {
        let (mut session, _) = open_example(ChromeStyle::Composed);
        for event in done {
            session = session.step(event).0;
        }
        let (session, action) = session.step(SessionEvent::StepFailed("no display".to_string()));
        assert_eq!(
            action,
            SessionAction::Abandon(OpenFailure {
                kind: OpenFailureKind::WindowBuildFailure,
                message: "no display".to_string(),
            })
        );
        assert_eq!(session.phase(), Phase::Closed);
        assert!(!session.has_content());
    }
}

#[test]
fn failures_while_listening_are_swallowed() {
    let session = listening_example(ChromeStyle::Composed);
    let (session, action) = session.step(SessionEvent::StepFailed("surface gone".to_string()));
    assert_eq!(action, SessionAction::Idle);
    assert_eq!(session.phase(), Phase::Listening);
}

#[test]
fn events_out_of_turn_are_ignored() {
    let (session, _) = open_example(ChromeStyle::Composed);
    for event in [
        SessionEvent::WindowBuilt,
        SessionEvent::SurfacesBound,
        SessionEvent::ListenersAttached,
        SessionEvent::Resized(WindowSize { width: 1, height: 1 }),
        SessionEvent::MenuActivated("nav_back".to_string()),
        SessionEvent::NavigationRequested(NavigationIntent::Reload),
    ] {
        let (next, action) = session.clone().step(event);
        assert_eq!(action, SessionAction::Idle);
        assert_eq!(next, session);
    }
}

#[test]
fn navigation_after_close_is_a_no_op() {
    let session = listening_example(ChromeStyle::Composed);
    let (session, action) = session.step(SessionEvent::WindowClosed);
    assert_eq!(action, SessionAction::Release);
    assert_eq!(session.phase(), Phase::Closed);
    assert!(!session.has_content());
    assert!(!session.has_toolbar());
    for intent in [
        NavigationIntent::Back,
        NavigationIntent::Forward,
        NavigationIntent::Reload,
        NavigationIntent::Home("https://example.com".to_string()),
    ] {
        assert_eq!(session.dispatch(&intent), SessionAction::Idle);
        let (next, action) = session.clone().step(SessionEvent::NavigationRequested(intent));
        assert_eq!(action, SessionAction::Idle);
        assert_eq!(next.phase(), Phase::Closed);
    }
    let (_, action) = session.step(SessionEvent::Resized(WindowSize { width: 10, height: 10 }));
    assert_eq!(action, SessionAction::Idle);
}

#[test]
fn dispatch_instructs_the_content_surface_of_a_listening_session() {
    let session = listening_example(ChromeStyle::Composed);
    assert_eq!(
        session.dispatch(&NavigationIntent::Back),
        SessionAction::Instruct(SurfaceInstruction::RunScript("window.history.back()".to_string()))
    );
    assert_eq!(
        session.dispatch(&NavigationIntent::Reload),
        SessionAction::Instruct(SurfaceInstruction::Reload)
    );
}

#[test]
fn menu_commands_reach_the_relay() {
    let session = listening_example(ChromeStyle::NativeMenu);
    let (session, action) = session.step(SessionEvent::MenuActivated("nav_back".to_string()));
    assert_eq!(
        action,
        SessionAction::Instruct(SurfaceInstruction::RunScript("window.history.back()".to_string()))
    );
    let (session, action) = session.step(SessionEvent::MenuActivated("nav_home".to_string()));
    assert_eq!(
        action,
        SessionAction::Instruct(SurfaceInstruction::Navigate("https://example.com".to_string()))
    );
    let (_, action) = session.step(SessionEvent::MenuActivated("file_quit".to_string()));
    assert_eq!(action, SessionAction::Idle);
}

#[test]
fn native_window_has_a_menu_and_no_toolbar() {
    let (session, _) = open_example(ChromeStyle::NativeMenu);
    let (session, action) = session.step(SessionEvent::ProfileReady);
    match action {
        SessionAction::BuildWindow(plan) => {
            assert!(plan.decorations);
            assert_eq!(plan.title, "Example");
        }
        other => panic!("unexpected action {:?}", other),
    }
    let (session, action) = session.step(SessionEvent::WindowBuilt);
    assert_eq!(
        action,
        SessionAction::BindSurfaces(SurfacePlan {
            toolbar_page: None,
            layout: ChromeLayout {
                toolbar: Bounds { x: 0, y: 0, width: 1200, height: 0 },
                content: Bounds { x: 0, y: 0, width: 1200, height: 800 },
            },
            content_url: "https://example.com".to_string(),
            profile_dir: "/data/profiles/ex1".to_string(),
            menu: navigation_menu(),
        })
    );
    let (session, _) = session.step(SessionEvent::SurfacesBound);
    assert!(session.has_content());
    assert!(!session.has_toolbar());
    let (session, _) = session.step(SessionEvent::ListenersAttached);
    let (_, action) = session.step(SessionEvent::Resized(WindowSize { width: 800, height: 600 }));
    assert_eq!(action, SessionAction::Idle);
}

#[test]
fn reports_drive_an_opening_to_listening() {
    let (mut session, mut action) = open_example(ChromeStyle::Composed);
    let mut steps = 0;
    while let Some(event) = report_event(&action, Ok(())) {
        let next = session.step(event);
        session = next.0;
        action = next.1;
        steps += 1;
        assert!(steps <= 4);
    }
    assert_eq!(steps, 4);
    assert_eq!(session.phase(), Phase::Listening);
    assert_eq!(action, SessionAction::Idle);
}

#[test]
fn failed_reports_are_step_failures() {
    let action = SessionAction::AttachListeners;
    assert_eq!(
        report_event(&action, Err("boom".to_string())),
        Some(SessionEvent::StepFailed("boom".to_string()))
    );
    assert_eq!(report_event(&SessionAction::Idle, Ok(())), None);
    assert_eq!(report_event(&SessionAction::Release, Ok(())), None);
}

#[test]
fn closing_during_construction_releases() {
    let (session, _) = open_example(ChromeStyle::Composed);
    let (session, _) = session.step(SessionEvent::ProfileReady);
    let (session, action) = session.step(SessionEvent::WindowClosed);
    assert_eq!(action, SessionAction::Release);
    assert_eq!(session.phase(), Phase::Closed);
}

#[test]
fn sessions_with_different_labels_have_different_profiles() {
    let open = |label: &str| {
        open_app_window(
            "/data".to_string(),
            "https://example.com".to_string(),
            label.to_string(),
            "Example".to_string(),
            ChromeStyle::Composed,
        )
        .unwrap()
        .0
    };
    assert_ne!(open("a").profile_dir(), open("b").profile_dir());
    assert_eq!(open("a").profile_dir(), open("a").profile_dir());
    assert_eq!(open("a").style(), ChromeStyle::Composed);
}

#[test]
fn surfaces_are_named_while_they_are_bound() {
    let (session, _) = open_example(ChromeStyle::Composed);
    assert!(session.surface_names().is_empty());
    let session = listening_example(ChromeStyle::Composed);
    assert_eq!(session.surface_names(), vec!["toolbar".to_string(), "content".to_string()]);
    let (session, _) = session.step(SessionEvent::WindowClosed);
    assert!(session.surface_names().is_empty());
    let session = listening_example(ChromeStyle::NativeMenu);
    assert_eq!(session.surface_names(), vec!["content".to_string()]);
}

#[test]
fn address_check_agrees_with_opening() {
    assert_eq!(check_address("https://example.com"), Ok(()));
    assert_eq!(check_address("app://local/page"), Ok(()));
    assert_eq!(
        check_address("example.com/no-scheme"),
        Err(OpenFailure {
            kind: OpenFailureKind::InvalidUrl,
            message: "relative URL without a base".to_string(),
        })
    );
    for url in ["", "https://", "https://example.com:99999/", "https://example.com"] {
        let opened = open_app_window(
            "/data".to_string(),
            url.to_string(),
            "l".to_string(),
            "n".to_string(),
            ChromeStyle::Composed,
        );
        assert_eq!(check_address(url).err(), opened.err());
    }
}
