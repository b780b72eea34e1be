use std::collections::BTreeSet;

use window_shell::error::OrchestratorError;
use window_shell::events::{Emission, CMD_REQUEST, IM_WINDOW, WINDOW_CREATED};
use window_shell::orchestrator::{
    plan_window, settle_window, HostRequest, WindowRequest, WINDOW_HEIGHT, WINDOW_WIDTH,
};
use window_shell::registry::LocationRegistry;
use window_shell::state::AppState;

/// A host that keeps its windows in a set and records what it was asked.
struct FakeHost {
    open: BTreeSet<String>,
    created: Vec<WindowRequest>,
    focused: Vec<String>,
    sent: Vec<Emission>,
    failing: bool,
}

impl FakeHost {
    fn new() -> Self {
        FakeHost {
            open: BTreeSet::new(),
            created: Vec::new(),
            focused: Vec::new(),
            sent: Vec::new(),
            failing: false,
        }
    }

    fn is_open(&self, name: &str) -> bool {
        self.open.contains(name)
    }

    fn perform(&mut self, request: HostRequest) -> (HostRequest, Result<(), String>) {
        if self.failing {
            return (request, Err("display unavailable".to_string()));
        }
        match request {
            HostRequest::Focus { label } => {
                self.focused.push(label.clone());
                (HostRequest::Focus { label }, Ok(()))
            }
            HostRequest::Create { window } => {
                self.open.insert(window.label.clone());
                let kept = WindowRequest {
                    label: window.label.clone(),
                    title: window.title.clone(),
                    location: window.location.clone(),
                    decorations: window.decorations,
                    width: window.width,
                    height: window.height,
                    devtools_on_debug: window.devtools_on_debug,
                };
                self.created.push(kept);
                (HostRequest::Create { window }, Ok(()))
            }
        }
    }
}

fn create_or_focus_window(
    registry: &LocationRegistry,
    state: &mut AppState,
    host: &mut FakeHost,
    name: &str,
) -> Result<(), OrchestratorError> {
    let request = plan_window(registry, name, host.is_open(name))?;
    let (request, reply) = host.perform(request);
    let creating = matches!(request, HostRequest::Create { .. });
    assert!(!(creating && reply.is_ok()) || state.has_room());
    let emissions = settle_window(state, &request, reply)?;
    for emission in emissions {
        host.sent.push(emission);
    }
    Ok(())
}

fn small_registry() -> LocationRegistry {
    LocationRegistry::from_table(vec![
        ("im".to_string(), "/im".to_string()),
        ("dashboard".to_string(), "/dashboard".to_string()),
    ])
}

fn note(event: &str) -> Emission {
    Emission { target: IM_WINDOW.to_string(), event: event.to_string(), payload: None }
}

#[test]
fn first_request_creates_one_window_and_counts_it() {
    let registry = small_registry();
    let mut state = AppState::new();
    let mut host = FakeHost::new();
    assert_eq!(create_or_focus_window(&registry, &mut state, &mut host, "dashboard"), Ok(()));
    assert_eq!(host.created.len(), 1);
    assert_eq!(host.open.len(), 1);
    assert!(host.open.contains("dashboard"));
    assert!(host.focused.is_empty());
    assert_eq!(state.window_count(), 1);
    assert_eq!(host.sent, vec![note("cmd_request")]);
}

#[test]
fn second_request_for_same_name_focuses() {
    let registry = small_registry();
    let mut state = AppState::new();
    let mut host = FakeHost::new();
    assert_eq!(create_or_focus_window(&registry, &mut state, &mut host, "dashboard"), Ok(()));
    assert_eq!(create_or_focus_window(&registry, &mut state, &mut host, "dashboard"), Ok(()));
    assert_eq!(host.created.len(), 1);
    assert_eq!(host.focused, vec!["dashboard".to_string()]);
    assert_eq!(state.window_count(), 1);
    assert_eq!(
        host.sent,
        vec![note("cmd_request"), note("window_created"), note("cmd_request")]
    );
}

#[test]
fn unregistered_name_fails_and_counts_nothing() {
    let registry = small_registry();
    let mut state = AppState::new();
    let mut host = FakeHost::new();
    assert_eq!(
        create_or_focus_window(&registry, &mut state, &mut host, "ghost"),
        Err(OrchestratorError::UnknownWindowName { name: "ghost".to_string() })
    );
    assert_eq!(state.window_count(), 0);
    assert!(host.created.is_empty());
    assert!(host.focused.is_empty());
    assert!(host.sent.is_empty());
}

#[test]
fn scenario_create_focus_then_unknown() {
    let registry = small_registry();
    let mut state = AppState::new();
    let mut host = FakeHost::new();

    assert_eq!(create_or_focus_window(&registry, &mut state, &mut host, "im"), Ok(()));
    assert!(host.open.contains("im"));
    assert_eq!(host.created.len(), 1);
    assert_eq!(host.created[0].label, "im");
    assert_eq!(host.created[0].location, "/im");
    assert_eq!(state.window_count(), 1);

    let sent_before = host.sent.len();
    assert_eq!(create_or_focus_window(&registry, &mut state, &mut host, "im"), Ok(()));
    assert_eq!(host.created.len(), 1);
    assert_eq!(host.focused, vec!["im".to_string()]);
    assert_eq!(state.window_count(), 1);
    assert_eq!(host.sent.len(), sent_before + 2);
    assert_eq!(host.sent[sent_before], note("window_created"));
    assert_eq!(host.sent[sent_before + 1], note("cmd_request"));

    assert_eq!(
        create_or_focus_window(&registry, &mut state, &mut host, "ghost"),
        Err(OrchestratorError::UnknownWindowName { name: "ghost".to_string() })
    );
    assert_eq!(state.window_count(), 1);
    assert_eq!(host.created.len(), 1);
}

#[test]
fn two_names_interleaved_count_two() {
    let registry = small_registry();
    let orders: [[bool; 4]; 6] = [
        [true, true, false, false],
        [true, false, true, false],
        [true, false, false, true],
        [false, true, true, false],
        [false, true, false, true],
        [false, false, true, true],
    ];
    for order in orders {
        let mut state = AppState::new();
        let mut host = FakeHost::new();
        let mut planned_im: Option<HostRequest> = None;
        let mut planned_dashboard: Option<HostRequest> = None;
        let mut finished = 0;
        for im_moves in order {
            let (name, slot) = if im_moves {
                ("im", &mut planned_im)
            } else {
                ("dashboard", &mut planned_dashboard)
            };
            match slot.take() {
                None => {
                    *slot = Some(plan_window(&registry, name, host.is_open(name)).unwrap());
                }
                Some(request) => {
                    let (request, reply) = host.perform(request);
                    assert!(state.has_room());
                    settle_window(&mut state, &request, reply).unwrap();
                    finished += 1;
                }
            }
        }
        assert_eq!(finished, 2);
        assert_eq!(state.window_count(), 2);
        assert_eq!(host.created.len(), 2);
        assert!(host.open.contains("im") && host.open.contains("dashboard"));
        assert_eq!(host.open.len(), 2);
    }
}

#[test]
fn plan_for_open_window_is_focus_whatever_the_registry_holds() {
    let registry = small_registry();
    assert_eq!(
        plan_window(&registry, "main", true),
        Ok(HostRequest::Focus { label: "main".to_string() })
    );
    assert_eq!(
        plan_window(&registry, "im", true),
        Ok(HostRequest::Focus { label: "im".to_string() })
    );
}

#[test]
fn plan_for_new_window_carries_the_fixed_options() {
    let registry = LocationRegistry::builtin();
    let planned = plan_window(&registry, "trade-exec", false);
    assert_eq!(
        planned,
        Ok(HostRequest::Create {
            window: WindowRequest {
                label: "trade-exec".to_string(),
                title: "trade-exec".to_string(),
                location: "http://localhost:3000/orders".to_string(),
                decorations: false,
                width: 1200,
                height: 800,
                devtools_on_debug: true,
            },
        })
    );
    assert_eq!(WINDOW_WIDTH, 1200);
    assert_eq!(WINDOW_HEIGHT, 800);
}

#[test]
fn plan_for_unknown_name_names_it() {
    let registry = LocationRegistry::builtin();
    assert_eq!(
        plan_window(&registry, "", false),
        Err(OrchestratorError::UnknownWindowName { name: String::new() })
    );
    assert_eq!(
        plan_window(&registry, "IM", false),
        Err(OrchestratorError::UnknownWindowName { name: "IM".to_string() })
    );
}

#[test]
fn settle_after_focus_sends_two_notifications() {
    let mut state = AppState::new();
    let request = HostRequest::Focus { label: "im".to_string() };
    let settled = settle_window(&mut state, &request, Ok(()));
    assert_eq!(settled, Ok(vec![note(WINDOW_CREATED), note(CMD_REQUEST)]));
    assert_eq!(state.window_count(), 0);
}

#[test]
fn settle_after_create_counts_and_sends_one_notification() {
    let registry = small_registry();
    let mut state = AppState::new();
    let request = plan_window(&registry, "im", false).unwrap();
    let settled = settle_window(&mut state, &request, Ok(()));
    assert_eq!(settled, Ok(vec![note(CMD_REQUEST)]));
    assert_eq!(state.window_count(), 1);
}

#[test]
fn host_failure_on_create_leaves_the_count() {
    let registry = small_registry();
    let mut state = AppState::new();
    let mut host = FakeHost::new();
    assert_eq!(create_or_focus_window(&registry, &mut state, &mut host, "im"), Ok(()));
    host.failing = true;
    assert_eq!(
        create_or_focus_window(&registry, &mut state, &mut host, "dashboard"),
        Err(OrchestratorError::HostOperationFailure {
            name: "dashboard".to_string(),
            reason: "display unavailable".to_string(),
        })
    );
    assert_eq!(state.window_count(), 1);
    assert_eq!(host.sent, vec![note("cmd_request")]);
}

#[test]
fn host_failure_on_focus_sends_nothing() {
    let mut state = AppState::new();
    let request = HostRequest::Focus { label: "im".to_string() };
    let settled = settle_window(&mut state, &request, Err("gone".to_string()));
    assert_eq!(
        settled,
        Err(OrchestratorError::HostOperationFailure {
            name: "im".to_string(),
            reason: "gone".to_string(),
        })
    );
    assert_eq!(state.window_count(), 0);
}
