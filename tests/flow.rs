use custom_dialog::desktop::{FlowAction, FlowEvent, Phase, SessionFlow};
use custom_dialog::error::Error;
use custom_dialog::DialogResult;

#[test]
fn modal_session_disables_enabled_parent_and_restores_it_on_finish() {
    let (mut flow, disable) = SessionFlow::start(true, Some(true));
    assert!(disable);
    assert!(matches!(flow.step(FlowEvent::WindowBuilt), FlowAction::Await));
    match flow.step(FlowEvent::Resolved(Some(DialogResult::Cancel))) {
        FlowAction::Finish { teardown, result } => {
            assert!(teardown.close_window && teardown.enable_parent && teardown.focus_parent);
            assert!(matches!(result, DialogResult::Cancel));
        }
        _ => panic!("expected Finish"),
    }
    assert!(matches!(flow.phase, Phase::Ended));
}

#[test]
fn build_failure_restores_parent_and_reports_window_error() {
    let (mut flow, disable) = SessionFlow::start(true, Some(true));
    assert!(disable);
    match flow.step(FlowEvent::WindowFailed("no display".to_string())) {
        FlowAction::Abort { enable_parent, error: Some(Error::WindowNotFound(m)) } => {
            assert!(enable_parent);
            assert_eq!(m, "no display");
        }
        _ => panic!("expected Abort with WindowNotFound"),
    }
    assert!(matches!(flow.step(FlowEvent::WindowBuilt), FlowAction::Ignore));
}

#[test]
fn dropped_wait_restores_parent_without_error() {
    let (mut flow, _) = SessionFlow::start(true, Some(true));
    flow.step(FlowEvent::WindowBuilt);
    assert!(matches!(
        flow.step(FlowEvent::Dropped),
        FlowAction::Abort { enable_parent: true, error: None }
    ));
    assert!(matches!(flow.step(FlowEvent::Dropped), FlowAction::Ignore));
}

#[test]
fn modeless_session_never_touches_parent_enabled_state() {
    let (mut flow, disable) = SessionFlow::start(false, Some(true));
    assert!(!disable);
    flow.step(FlowEvent::WindowBuilt);
    match flow.step(FlowEvent::Resolved(None)) {
        FlowAction::Finish { teardown, result } => {
            assert!(!teardown.enable_parent && teardown.focus_parent);
            assert!(matches!(result, DialogResult::Closed));
        }
        _ => panic!("expected Finish"),
    }
}

#[test]
fn resolution_before_window_is_built_is_ignored() {
    let (mut flow, _) = SessionFlow::start(true, None);
    assert!(matches!(flow.step(FlowEvent::Resolved(None)), FlowAction::Ignore));
    assert!(matches!(flow.phase, Phase::Building));
}

#[test]
fn modal_session_with_disabled_parent_disables_it_and_does_not_enable_it() {
    let (mut flow, disable) = SessionFlow::start(true, Some(false));
    assert!(disable);
    flow.step(FlowEvent::WindowBuilt);
    match flow.step(FlowEvent::Resolved(Some(DialogResult::Closed))) {
        FlowAction::Finish { teardown, .. } => assert!(!teardown.enable_parent),
        _ => panic!("expected Finish"),
    }
}
