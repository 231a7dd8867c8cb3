//! The rotation orchestrator as a state machine: each step names the next
//! outside action to perform, and the caller feeds the action's outcome
//! back in. The sequence is reset auth (fetch, upsert, delete), rotate
//! the config, patch the bundle, restart the application; a remote
//! deletion failure is tolerated, every other failure absorbs the flow
//! into a terminal error state before any later action is issued.

use vstd::prelude::*;

use crate::auth::{parse_api_response, spec_response_ok};
use crate::events::ProgressEmitter;
use crate::jsontext::{json_obj, json_str_of};
use crate::textops::{contains_seq, str_eq};

verus! {

/// Why a rotation failed.
pub enum ResetError {
    /// The remote service reported that no accounts are available.
    NoAccountsAvailable,
    /// Any other unsuccessful remote response; carries the error text.
    RemoteApiError(String),
    /// The fetched record carries no email.
    MissingEmail,
    /// The fetched record carries no token.
    MissingToken,
    /// The response body was not of the expected shape.
    ParseError,
    /// The fetch did not reach the service.
    NetworkError,
    /// The fetch returned a non-success status.
    HttpError,
    /// The response body could not be read.
    ServerError,
    /// The auth store upsert failed.
    UpdateAuthFailed,
    /// The identity config rotation failed.
    RotateFailed,
    /// The bundle patch failed.
    PatchFailed,
    /// Restarting the target application failed.
    RestartFailed,
}

/// How a fetch failed.
#[derive(Clone, Copy, PartialEq, Eq, Structural, Debug)]
pub enum FetchError {
    /// The request did not go out or no response came back.
    Network,
    /// The response had a non-success status code.
    Http,
    /// The response body could not be read.
    Server,
}

/// Where the flow stands.
pub enum ResetState {
    /// Nothing started yet.
    Idle,
    /// The fetch action is out.
    AwaitingFetch,
    /// The upsert action is out; holds the fetched account's email for
    /// the deletion that follows.
    AwaitingUpsert(String),
    /// The remote deletion is out.
    AwaitingDelete,
    /// The config rotation is out.
    AwaitingRotate,
    /// The bundle patch is out.
    AwaitingPatch,
    /// The application restart is out.
    AwaitingRestart,
    /// The rotation finished.
    Done,
    /// The rotation failed.
    Failed(ResetError),
}

/// What the caller reports back.
pub enum ResetEvent {
    /// Begin a rotation.
    Start,
    /// The fetch finished: the response body, or how it failed.
    FetchFinished(Result<String, FetchError>),
    /// The auth store upsert finished.
    UpsertFinished(bool),
    /// The remote deletion finished.
    DeleteFinished(bool),
    /// The config rotation finished.
    RotateFinished(bool),
    /// The bundle patch finished.
    PatchFinished(bool),
    /// The application restart finished.
    RestartFinished(bool),
}

/// What the caller must do next.
pub enum ResetAction {
    /// Fetch an account record from the remote service.
    Fetch,
    /// Upsert the credentials: the email, and the token used as both
    /// access and refresh token.
    Upsert(String, String),
    /// Ask the remote service to delete the consumed record.
    DeleteRemote(String),
    /// Rotate the identity config file.
    Rotate,
    /// Patch the bundle with fresh values.
    Patch,
    /// Restart the target application.
    Restart,
}

/// The `success` flag a response body carries.
pub open spec fn body_success(body: Seq<char>) -> bool {
    json_obj(body)->0["success"@] == "true"@
}

/// The `message` a response body carries.
pub open spec fn body_message(body: Seq<char>) -> Seq<char> {
    json_str_of(json_obj(body)->0["message"@])->0
}

/// The account email a response body carries.
pub open spec fn body_email(body: Seq<char>) -> Seq<char> {
    json_str_of(json_obj(json_obj(body)->0["data"@])->0["email"@])->0
}

/// The account token a response body carries.
pub open spec fn body_token(body: Seq<char>) -> Seq<char> {
    json_str_of(json_obj(json_obj(body)->0["data"@])->0["token"@])->0
}

/// A usable response: well-shaped, successful, with email and token.
pub open spec fn body_usable(body: Seq<char>) -> bool {
    &&& spec_response_ok(body)
    &&& body_success(body)
    &&& body_email(body).len() > 0
    &&& body_token(body).len() > 0
}

/// Whether an event belongs to a state: only these pairs make the flow
/// move.
pub open spec fn event_expected(st: ResetState, ev: ResetEvent) -> bool {
    ||| (st is Idle && ev is Start)
    ||| (st is AwaitingFetch && ev is FetchFinished)
    ||| (st is AwaitingUpsert && ev is UpsertFinished)
    ||| (st is AwaitingDelete && ev is DeleteFinished)
    ||| (st is AwaitingRotate && ev is RotateFinished)
    ||| (st is AwaitingPatch && ev is PatchFinished)
    ||| (st is AwaitingRestart && ev is RestartFinished)
}

/// The rotation orchestrator.
pub struct ResetFlow {
    pub state: ResetState,
}

impl ResetFlow {
    /// A fresh flow, not yet started.
    pub fn new() -> (r: ResetFlow)
        ensures
            r.state is Idle,
    {
        ResetFlow { state: ResetState::Idle }
    }

    /// One transition: consumes the flow and an event, yields the next
    /// flow and the action to perform, if any. Each transition reports
    /// progress through the sink, which never fails the caller. An event
    /// that does not belong to the current state changes nothing.
    pub fn step<E: ProgressEmitter>(self, event: ResetEvent, sink: &E) -> (r: (
        ResetFlow,
        Option<ResetAction>,
    ))
        ensures
            // Start
            (self.state is Idle && event is Start) ==> (r.0.state is AwaitingFetch
                && r.1 == Some(ResetAction::Fetch)),
            // Fetch failures are classified by how the fetch failed.
            (self.state is AwaitingFetch && event is FetchFinished && event->FetchFinished_0
                is Err) ==> (r.1 is None && r.0.state is Failed && (match event->FetchFinished_0->Err_0 {
                FetchError::Network => r.0.state->Failed_0 is NetworkError,
                FetchError::Http => r.0.state->Failed_0 is HttpError,
                FetchError::Server => r.0.state->Failed_0 is ServerError,
            })),
            // A body that is not of the expected shape is a parse error.
            (self.state is AwaitingFetch && event is FetchFinished && event->FetchFinished_0
                is Ok && !spec_response_ok(event->FetchFinished_0->Ok_0@)) ==> (r.1 is None
                && r.0.state is Failed && r.0.state->Failed_0 is ParseError),
            // An unsuccessful response speaking of no accounts.
            (self.state is AwaitingFetch && event is FetchFinished && event->FetchFinished_0
                is Ok && spec_response_ok(event->FetchFinished_0->Ok_0@) && !body_success(
                event->FetchFinished_0->Ok_0@,
            ) && contains_seq(body_message(event->FetchFinished_0->Ok_0@), "No accounts available"@))
                ==> (r.1 is None && r.0.state is Failed && r.0.state->Failed_0
                is NoAccountsAvailable),
            // Any other unsuccessful response is a generic API error.
            (self.state is AwaitingFetch && event is FetchFinished && event->FetchFinished_0
                is Ok && spec_response_ok(event->FetchFinished_0->Ok_0@) && !body_success(
                event->FetchFinished_0->Ok_0@,
            ) && !contains_seq(body_message(event->FetchFinished_0->Ok_0@), "No accounts available"@))
                ==> (r.1 is None && r.0.state is Failed && r.0.state->Failed_0 is RemoteApiError
                && r.0.state->Failed_0->RemoteApiError_0@ == "authConfig.errors.apiError: "@
                + body_message(event->FetchFinished_0->Ok_0@)),
            // A successful response without an email or token is rejected.
            (self.state is AwaitingFetch && event is FetchFinished && event->FetchFinished_0
                is Ok && spec_response_ok(event->FetchFinished_0->Ok_0@) && body_success(
                event->FetchFinished_0->Ok_0@,
            ) && body_email(event->FetchFinished_0->Ok_0@).len() == 0) ==> (r.1 is None
                && r.0.state is Failed && r.0.state->Failed_0 is MissingEmail),
            (self.state is AwaitingFetch && event is FetchFinished && event->FetchFinished_0
                is Ok && spec_response_ok(event->FetchFinished_0->Ok_0@) && body_success(
                event->FetchFinished_0->Ok_0@,
            ) && body_email(event->FetchFinished_0->Ok_0@).len() > 0 && body_token(
                event->FetchFinished_0->Ok_0@,
            ).len() == 0) ==> (r.1 is None && r.0.state is Failed && r.0.state->Failed_0
                is MissingToken),
            // A usable record moves on to the upsert.
            (self.state is AwaitingFetch && event is FetchFinished && event->FetchFinished_0
                is Ok && body_usable(event->FetchFinished_0->Ok_0@)) ==> (r.0.state
                is AwaitingUpsert && r.0.state->AwaitingUpsert_0@ == body_email(
                event->FetchFinished_0->Ok_0@,
            ) && r.1 is Some && r.1->0 is Upsert && r.1->0->Upsert_0@ == body_email(
                event->FetchFinished_0->Ok_0@,
            ) && r.1->0->Upsert_1@ == body_token(event->FetchFinished_0->Ok_0@)),
            // Upsert: failure aborts; success asks for the remote delete.
            (self.state is AwaitingUpsert && event is UpsertFinished && !event->UpsertFinished_0)
                ==> (r.1 is None && r.0.state is Failed && r.0.state->Failed_0
                is UpdateAuthFailed),
            (self.state is AwaitingUpsert && event is UpsertFinished && event->UpsertFinished_0)
                ==> (r.0.state is AwaitingDelete && r.1 is Some && r.1->0 is DeleteRemote
                && r.1->0->DeleteRemote_0@ == self.state->AwaitingUpsert_0@),
            // A deletion failure is tolerated: either way the config
            // rotation is next.
            (self.state is AwaitingDelete && event is DeleteFinished) ==> (r.0.state
                is AwaitingRotate && r.1 == Some(ResetAction::Rotate)),
            // Rotate, patch, restart: each failure absorbs the flow.
            (self.state is AwaitingRotate && event is RotateFinished) ==> (
            if event->RotateFinished_0 {
                r.0.state is AwaitingPatch && r.1 == Some(ResetAction::Patch)
            } else {
                r.1 is None && r.0.state is Failed && r.0.state->Failed_0 is RotateFailed
            }),
            (self.state is AwaitingPatch && event is PatchFinished) ==> (
            if event->PatchFinished_0 {
                r.0.state is AwaitingRestart && r.1 == Some(ResetAction::Restart)
            } else {
                r.1 is None && r.0.state is Failed && r.0.state->Failed_0 is PatchFailed
            }),
            (self.state is AwaitingRestart && event is RestartFinished) ==> (
            if event->RestartFinished_0 {
                r.0.state is Done && r.1 is None
            } else {
                r.1 is None && r.0.state is Failed && r.0.state->Failed_0 is RestartFailed
            }),
            // An event that does not belong to the current state changes
            // nothing and asks for nothing.
            !event_expected(self.state, event) ==> (r.0.state == self.state && r.1 is None),
    {
        match (self.state, event) {
            (ResetState::Idle, ResetEvent::Start) => {
                sink.emit_progress("authConfig.progress.start");
                sink.emit_progress("authConfig.progress.gettingAccount");
                (ResetFlow { state: ResetState::AwaitingFetch }, Some(ResetAction::Fetch))
            },
            (ResetState::AwaitingFetch, ResetEvent::FetchFinished(res)) => match res {
                Err(FetchError::Network) => {
                    sink.emit_progress("authConfig.errors.networkError");
                    (ResetFlow { state: ResetState::Failed(ResetError::NetworkError) }, None)
                },
                Err(FetchError::Http) => {
                    sink.emit_progress("authConfig.errors.httpError");
                    (ResetFlow { state: ResetState::Failed(ResetError::HttpError) }, None)
                },
                Err(FetchError::Server) => {
                    sink.emit_progress("authConfig.errors.serverError");
                    (ResetFlow { state: ResetState::Failed(ResetError::ServerError) }, None)
                },
                Ok(body) => match parse_api_response(body.as_str()) {
                    Err(key) => {
                        sink.emit_progress(key.as_str());
                        (ResetFlow { state: ResetState::Failed(ResetError::ParseError) }, None)
                    },
                    Ok(resp) => match resp.validate() {
                        Err(key) => {
                            proof {
                                reveal_strlit("authConfig.errors.noAccounts");
                                reveal_strlit("authConfig.errors.missingEmail");
                                reveal_strlit("authConfig.errors.missingToken");
                                reveal_strlit("authConfig.errors.apiError: ");
                                assert("authConfig.errors.missingEmail"@[25] == 'E');
                                assert("authConfig.errors.missingToken"@[25] == 'T');
                                assert("authConfig.errors.missingEmail"@
                                    != "authConfig.errors.noAccounts"@);
                                assert("authConfig.errors.missingToken"@
                                    != "authConfig.errors.noAccounts"@);
                                assert("authConfig.errors.missingToken"@
                                    != "authConfig.errors.missingEmail"@);
                                if !resp.success && !contains_seq(
                                    resp.message@,
                                    "No accounts available"@,
                                ) {
                                    assert(key@ == "authConfig.errors.apiError: "@
                                        + resp.message@);
                                    assert(key@[18] == 'a');
                                    assert(key@ != "authConfig.errors.noAccounts"@);
                                    assert(key@ != "authConfig.errors.missingEmail"@);
                                    assert(key@ != "authConfig.errors.missingToken"@);
                                }
                            }
                            sink.emit_progress(key.as_str());
                            let err = if str_eq(key.as_str(), "authConfig.errors.noAccounts") {
                                ResetError::NoAccountsAvailable
                            } else if str_eq(key.as_str(), "authConfig.errors.missingEmail") {
                                ResetError::MissingEmail
                            } else if str_eq(key.as_str(), "authConfig.errors.missingToken") {
                                ResetError::MissingToken
                            } else {
                                ResetError::RemoteApiError(key)
                            };
                            (ResetFlow { state: ResetState::Failed(err) }, None)
                        },
                        Ok(()) => {
                            sink.emit_progress("authConfig.progress.accountReceived");
                            sink.emit_progress("authConfig.progress.updating");
                            let email = resp.data.email;
                            let token = resp.data.token;
                            let held = email.clone();
                            (
                                ResetFlow { state: ResetState::AwaitingUpsert(held) },
                                Some(ResetAction::Upsert(email, token)),
                            )
                        },
                    },
                },
            },
            (ResetState::AwaitingUpsert(email), ResetEvent::UpsertFinished(ok)) => if ok {
                sink.emit_progress("authConfig.progress.updateSuccess");
                let held = email.clone();
                (
                    ResetFlow { state: ResetState::AwaitingDelete },
                    Some(ResetAction::DeleteRemote(held)),
                )
            } else {
                sink.emit_progress("authConfig.errors.updateFailed");
                (ResetFlow { state: ResetState::Failed(ResetError::UpdateAuthFailed) }, None)
            },
            (ResetState::AwaitingDelete, ResetEvent::DeleteFinished(ok)) => {
                if !ok {
                    sink.emit_progress("authConfig.errors.deleteAccountFailed");
                }
                sink.emit_progress("authConfig.progress.complete");
                (ResetFlow { state: ResetState::AwaitingRotate }, Some(ResetAction::Rotate))
            },
            (ResetState::AwaitingRotate, ResetEvent::RotateFinished(ok)) => if ok {
                sink.emit_progress("the identity config was rotated");
                (ResetFlow { state: ResetState::AwaitingPatch }, Some(ResetAction::Patch))
            } else {
                sink.emit_progress("rotating the identity config failed");
                (ResetFlow { state: ResetState::Failed(ResetError::RotateFailed) }, None)
            },
            (ResetState::AwaitingPatch, ResetEvent::PatchFinished(ok)) => if ok {
                sink.emit_progress("the bundle was patched");
                (ResetFlow { state: ResetState::AwaitingRestart }, Some(ResetAction::Restart))
            } else {
                sink.emit_progress("patching the bundle failed");
                (ResetFlow { state: ResetState::Failed(ResetError::PatchFailed) }, None)
            },
            (ResetState::AwaitingRestart, ResetEvent::RestartFinished(ok)) => if ok {
                sink.emit_progress("the rotation is complete");
                (ResetFlow { state: ResetState::Done }, None)
            } else {
                sink.emit_progress("restarting the application failed");
                (ResetFlow { state: ResetState::Failed(ResetError::RestartFailed) }, None)
            },
            (st, _) => (ResetFlow { state: st }, None),
        }
    }
}

} // verus!
