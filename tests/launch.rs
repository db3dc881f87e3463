use conpty_session::capability::ConptyApi;
use conpty_session::geometry::{Coord, SizeInfo};
use conpty_session::launch::{
    attribute_buffer_size, new, panic_shell_spawn, step, LaunchAction, LaunchEvent, LaunchStage, LaunchState,
};
use conpty_session::session::{ConsoleCall, Conpty};

const API: ConptyApi = ConptyApi { create: 10, resize: 11, close: 12 };

/// Runs a launch on the given outcomes and returns every action taken.
fn drive(size: SizeInfo, events: &[LaunchEvent]) -> (LaunchState, Vec<LaunchAction>) {
    let (mut state, first) = new(&size);
    let mut actions = vec![first];
    for e in events {
        let (s, a) = step(state, *e);
        state = s;
        actions.push(a);
    }
    (state, actions)
}

fn happy_events() -> Vec<LaunchEvent> {
    vec![
        LaunchEvent::CapabilityResolved { api: Some(API) },
        LaunchEvent::PipesCreated { succeeded: true },
        LaunchEvent::SessionCreated { status: 0, handle: 7 },
        LaunchEvent::AttributeSizeProbed { succeeded: false, size: 48 },
        LaunchEvent::AttributesFilled { succeeded: true },
        LaunchEvent::SessionBound { succeeded: true },
        LaunchEvent::ProcessSpawned { succeeded: true },
    ]
}

fn spawns(actions: &[LaunchAction]) -> bool {
    actions.iter().any(|a| matches!(a, LaunchAction::SpawnProcess))
}

#[test]
fn launch_then_resize() {
    let (state, actions) = drive(SizeInfo::new(80, 24), &happy_events());
    assert_eq!(state, LaunchState::Ready);
    assert_eq!(
        actions,
        vec![
            LaunchAction::ResolveCapability,
            LaunchAction::CreatePipes,
            LaunchAction::CreateSession { entry: 10, size: Coord { x: 80, y: 24 } },
            LaunchAction::ProbeAttributeSize,
            LaunchAction::FillAttributes { size: 48 },
            LaunchAction::BindSession { handle: 7 },
            LaunchAction::SpawnProcess,
            LaunchAction::Finish { session: Conpty::new(7, API, Coord { x: 80, y: 24 }) },
        ]
    );
    let mut session = match actions.into_iter().last() {
        Some(LaunchAction::Finish { session }) => session,
        _ => panic!("no session"),
    };
    let call = session.on_resize(&SizeInfo::new(132, 43));
    assert_eq!(call, Some(ConsoleCall::Resize { entry: 11, handle: 7, size: Coord { x: 132, y: 43 } }));
    assert_eq!(session.on_resize(&SizeInfo::new(100000, 24)), None);
    assert_eq!(session.size(), Coord { x: 132, y: 43 });
    assert_eq!(session.close(), ConsoleCall::Close { entry: 12, handle: 7 });
}

#[test]
fn launch_without_entry_points_reports_no_session() {
    let events = vec![
        LaunchEvent::CapabilityResolved { api: None },
        LaunchEvent::PipesCreated { succeeded: true },
        LaunchEvent::ProcessSpawned { succeeded: true },
    ];
    let (state, actions) = drive(SizeInfo::new(80, 24), &events);
    assert_eq!(state, LaunchState::Unavailable);
    assert_eq!(
        actions,
        vec![
            LaunchAction::ResolveCapability,
            LaunchAction::ReportNoSession,
            LaunchAction::Idle,
            LaunchAction::Idle,
        ]
    );
    assert!(!actions.iter().any(|a| matches!(a, LaunchAction::CreatePipes)));
    assert!(!spawns(&actions));
}

#[test]
fn size_probe_success_is_fatal() {
    let mut events = happy_events();
    events[3] = LaunchEvent::AttributeSizeProbed { succeeded: true, size: 48 };
    let (state, actions) = drive(SizeInfo::new(80, 24), &events);
    assert_eq!(state, LaunchState::Failed { stage: LaunchStage::AttributeProbe });
    assert_eq!(actions[4], LaunchAction::Abort { stage: LaunchStage::AttributeProbe });
    assert!(!spawns(&actions));
}

#[test]
fn size_probe_without_size_is_fatal() {
    let mut events = happy_events();
    events[3] = LaunchEvent::AttributeSizeProbed { succeeded: false, size: 0 };
    let (state, actions) = drive(SizeInfo::new(80, 24), &events);
    assert_eq!(state, LaunchState::Failed { stage: LaunchStage::AttributeProbe });
    assert!(!spawns(&actions));
}

#[test]
fn oversized_initial_geometry_is_fatal() {
    let (state, actions) = drive(SizeInfo::new(80, 40000), &happy_events());
    assert_eq!(state, LaunchState::Failed { stage: LaunchStage::Geometry });
    assert_eq!(actions[2], LaunchAction::Abort { stage: LaunchStage::Geometry });
    assert!(!actions.iter().any(|a| matches!(a, LaunchAction::CreateSession { .. })));
}

#[test]
fn each_failed_step_aborts_at_its_stage() {
    let cases = vec![
        (1, LaunchEvent::PipesCreated { succeeded: false }, LaunchStage::Pipes),
        (2, LaunchEvent::SessionCreated { status: -2147024809, handle: 7 }, LaunchStage::Session),
        (4, LaunchEvent::AttributesFilled { succeeded: false }, LaunchStage::AttributeFill),
        (5, LaunchEvent::SessionBound { succeeded: false }, LaunchStage::AttributeBind),
        (6, LaunchEvent::ProcessSpawned { succeeded: false }, LaunchStage::Spawn),
    ];
    for (at, event, stage) in cases {
        let mut events = happy_events();
        events[at] = event;
        let (state, actions) = drive(SizeInfo::new(80, 24), &events);
        assert_eq!(state, LaunchState::Failed { stage });
        assert_eq!(actions[at + 1], LaunchAction::Abort { stage });
        assert!(actions[at + 2..].iter().all(|a| *a == LaunchAction::Idle));
    }
}

#[test]
fn unexpected_event_is_ignored() {
    let (state, _) = new(&SizeInfo::new(80, 24));
    let (after, action) = step(state, LaunchEvent::PipesCreated { succeeded: true });
    assert_eq!(after, state);
    assert_eq!(action, LaunchAction::Idle);
}

#[test]
fn fatal_message_names_host_error() {
    let msg = panic_shell_spawn("Access is denied. (os error 5)");
    assert_eq!(msg, "Unable to spawn shell: Access is denied. (os error 5)");
}

#[test]
fn attribute_probe_protocol() {
    assert_eq!(attribute_buffer_size(false, 48), Some(48));
    assert_eq!(attribute_buffer_size(true, 48), None);
    assert_eq!(attribute_buffer_size(false, 0), None);
    assert_eq!(attribute_buffer_size(true, 0), None);
}
