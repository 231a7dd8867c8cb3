use cursor_pro_helper::events::{NoopProgressEmitter, ProgressEmitter};
use cursor_pro_helper::flow::{
    FetchError, ResetAction, ResetError, ResetEvent, ResetFlow, ResetState,
};

fn no_accounts_body() -> String {
    "{\"success\": false, \"message\": \"No accounts available\", \"data\": {\"email\": \"\", \"token\": \"\"}}"
        .to_string()
}

fn good_body() -> String {
    "{\"success\": true, \"message\": \"ok\", \"data\": {\"email\": \"a@b.com\", \"token\": \"T\"}}"
        .to_string()
}

#[test]
fn no_accounts_aborts_before_any_config_action() {
    let sink = NoopProgressEmitter::new();
    let flow = ResetFlow::new();
    let (flow, action) = flow.step(ResetEvent::Start, &sink);
    assert!(matches!(action, Some(ResetAction::Fetch)));
    let (flow, action) = flow.step(ResetEvent::FetchFinished(Ok(no_accounts_body())), &sink);
    // the flow fails with the no-accounts classification and asks for
    // nothing more: the config file is never touched
    assert!(action.is_none());
    assert!(matches!(flow.state, ResetState::Failed(ResetError::NoAccountsAvailable)));
}

#[test]
fn happy_path_runs_the_whole_sequence() {
    let sink = NoopProgressEmitter::new();
    let flow = ResetFlow::new();
    let (flow, action) = flow.step(ResetEvent::Start, &sink);
    assert!(matches!(action, Some(ResetAction::Fetch)));

    let (flow, action) = flow.step(ResetEvent::FetchFinished(Ok(good_body())), &sink);
    match action {
        Some(ResetAction::Upsert(email, token)) => {
            assert_eq!(email, "a@b.com");
            assert_eq!(token, "T");
        },
        other => panic!("expected an upsert action, got {:?}", other.is_some()),
    }

    let (flow, action) = flow.step(ResetEvent::UpsertFinished(true), &sink);
    match action {
        Some(ResetAction::DeleteRemote(email)) => assert_eq!(email, "a@b.com"),
        _ => panic!("expected a remote delete action"),
    }

    // a deletion failure is tolerated: the rotation continues
    let (flow, action) = flow.step(ResetEvent::DeleteFinished(false), &sink);
    assert!(matches!(action, Some(ResetAction::Rotate)));

    let (flow, action) = flow.step(ResetEvent::RotateFinished(true), &sink);
    assert!(matches!(action, Some(ResetAction::Patch)));

    let (flow, action) = flow.step(ResetEvent::PatchFinished(true), &sink);
    assert!(matches!(action, Some(ResetAction::Restart)));

    let (flow, action) = flow.step(ResetEvent::RestartFinished(true), &sink);
    assert!(action.is_none());
    assert!(matches!(flow.state, ResetState::Done));
}

#[test]
fn fetch_failures_are_classified() {
    let sink = NoopProgressEmitter::new();
    let flow = ResetFlow::new();
    let (flow, _) = flow.step(ResetEvent::Start, &sink);
    let (flow, action) = flow.step(ResetEvent::FetchFinished(Err(FetchError::Network)), &sink);
    assert!(action.is_none());
    assert!(matches!(flow.state, ResetState::Failed(ResetError::NetworkError)));

    let sink = NoopProgressEmitter::new();
    let flow = ResetFlow::new();
    let (flow, _) = flow.step(ResetEvent::Start, &sink);
    let (flow, _) = flow.step(ResetEvent::FetchFinished(Err(FetchError::Http)), &sink);
    assert!(matches!(flow.state, ResetState::Failed(ResetError::HttpError)));
}

#[test]
fn unparsable_body_is_a_parse_error() {
    let sink = NoopProgressEmitter::new();
    let flow = ResetFlow::new();
    let (flow, _) = flow.step(ResetEvent::Start, &sink);
    let (flow, action) = flow.step(ResetEvent::FetchFinished(Ok("garbage".to_string())), &sink);
    assert!(action.is_none());
    assert!(matches!(flow.state, ResetState::Failed(ResetError::ParseError)));
}

#[test]
fn generic_api_error_carries_the_message() {
    let sink = NoopProgressEmitter::new();
    let flow = ResetFlow::new();
    let (flow, _) = flow.step(ResetEvent::Start, &sink);
    let body = "{\"success\": false, \"message\": \"try later\", \"data\": {\"email\": \"\", \"token\": \"\"}}";
    let (flow, _) = flow.step(ResetEvent::FetchFinished(Ok(body.to_string())), &sink);
    match flow.state {
        ResetState::Failed(ResetError::RemoteApiError(msg)) => {
            assert_eq!(msg, "authConfig.errors.apiError: try later");
        },
        _ => panic!("expected a generic API error"),
    }
}

#[test]
fn unreadable_body_is_a_server_error() {
    let sink = NoopProgressEmitter::new();
    let flow = ResetFlow::new();
    let (flow, _) = flow.step(ResetEvent::Start, &sink);
    let (flow, _) = flow.step(ResetEvent::FetchFinished(Err(FetchError::Server)), &sink);
    assert!(matches!(flow.state, ResetState::Failed(ResetError::ServerError)));
}

#[test]
fn record_without_email_or_token_is_rejected() {
    let sink = NoopProgressEmitter::new();
    let flow = ResetFlow::new();
    let (flow, _) = flow.step(ResetEvent::Start, &sink);
    let body = "{\"success\": true, \"message\": \"ok\", \"data\": {\"email\": \"\", \"token\": \"T\"}}";
    let (flow, _) = flow.step(ResetEvent::FetchFinished(Ok(body.to_string())), &sink);
    assert!(matches!(flow.state, ResetState::Failed(ResetError::MissingEmail)));

    let sink = NoopProgressEmitter::new();
    let flow = ResetFlow::new();
    let (flow, _) = flow.step(ResetEvent::Start, &sink);
    let body = "{\"success\": true, \"message\": \"ok\", \"data\": {\"email\": \"e@x\", \"token\": \"\"}}";
    let (flow, _) = flow.step(ResetEvent::FetchFinished(Ok(body.to_string())), &sink);
    assert!(matches!(flow.state, ResetState::Failed(ResetError::MissingToken)));
}

#[test]
fn patch_and_restart_failures_are_reported() {
    let sink = NoopProgressEmitter::new();
    let flow = ResetFlow::new();
    let (flow, _) = flow.step(ResetEvent::Start, &sink);
    let (flow, _) = flow.step(ResetEvent::FetchFinished(Ok(good_body())), &sink);
    let (flow, _) = flow.step(ResetEvent::UpsertFinished(true), &sink);
    let (flow, _) = flow.step(ResetEvent::DeleteFinished(true), &sink);
    let (flow, _) = flow.step(ResetEvent::RotateFinished(true), &sink);
    let (flow, action) = flow.step(ResetEvent::PatchFinished(false), &sink);
    assert!(action.is_none());
    assert!(matches!(flow.state, ResetState::Failed(ResetError::PatchFailed)));

    let sink = NoopProgressEmitter::new();
    let flow = ResetFlow::new();
    let (flow, _) = flow.step(ResetEvent::Start, &sink);
    let (flow, _) = flow.step(ResetEvent::FetchFinished(Ok(good_body())), &sink);
    let (flow, _) = flow.step(ResetEvent::UpsertFinished(true), &sink);
    let (flow, _) = flow.step(ResetEvent::DeleteFinished(true), &sink);
    let (flow, _) = flow.step(ResetEvent::RotateFinished(true), &sink);
    let (flow, _) = flow.step(ResetEvent::PatchFinished(true), &sink);
    let (flow, _) = flow.step(ResetEvent::RestartFinished(false), &sink);
    assert!(matches!(flow.state, ResetState::Failed(ResetError::RestartFailed)));
}

#[test]
fn upsert_failure_aborts_the_rotation() {
    let sink = NoopProgressEmitter::new();
    let flow = ResetFlow::new();
    let (flow, _) = flow.step(ResetEvent::Start, &sink);
    let (flow, _) = flow.step(ResetEvent::FetchFinished(Ok(good_body())), &sink);
    let (flow, action) = flow.step(ResetEvent::UpsertFinished(false), &sink);
    assert!(action.is_none());
    assert!(matches!(flow.state, ResetState::Failed(ResetError::UpdateAuthFailed)));
}

#[test]
fn rotate_failure_is_reported() {
    let sink = NoopProgressEmitter::new();
    let flow = ResetFlow::new();
    let (flow, _) = flow.step(ResetEvent::Start, &sink);
    let (flow, _) = flow.step(ResetEvent::FetchFinished(Ok(good_body())), &sink);
    let (flow, _) = flow.step(ResetEvent::UpsertFinished(true), &sink);
    let (flow, _) = flow.step(ResetEvent::DeleteFinished(true), &sink);
    let (flow, action) = flow.step(ResetEvent::RotateFinished(false), &sink);
    assert!(action.is_none());
    assert!(matches!(flow.state, ResetState::Failed(ResetError::RotateFailed)));
}

#[test]
fn noop_emitter_swallows_messages() {
    let sink = NoopProgressEmitter::new();
    sink.emit_progress("anything");
    let defaulted: NoopProgressEmitter = Default::default();
    defaulted.emit_progress("still nothing happens");
}

#[test]
fn unexpected_events_change_nothing() {
    let sink = NoopProgressEmitter::new();
    let flow = ResetFlow::new();
    let (flow, action) = flow.step(ResetEvent::RotateFinished(true), &sink);
    assert!(action.is_none());
    assert!(matches!(flow.state, ResetState::Idle));
}
