//! The login flow.
//!
//! A login asks the store for the record of the username, derives the
//! verifier of the supplied password under the stored salt and compares it
//! with the stored one. The flow decides; the caller talks to the store:
//! `begin` says what to fetch, `step` takes what came back.

use crate::hashing::{verifiers_match, HashingParams, HashingService};
use crate::store::{
    decode_record, defect_of, AttributeView, ReadResult, ReadView, RecordDefect, StoredItemView,
};
use vstd::prelude::*;

verus! {

/// How a login ends, as the caller of the service sees it.
#[derive(Clone, Copy, Debug, PartialEq, Eq, Structural)]
pub enum LoginOutcome {
    Success,
    InvalidCredentials,
    TransientError,
    InternalError,
}

/// How a login ends, with its cause.
#[derive(Clone, Debug, PartialEq, Eq)]
pub enum LoginVerdict {
    /// The password matches the stored verifier.
    Authenticated,
    /// A sound record exists and the password does not match it.
    WrongPassword,
    /// No record exists for the username.
    UnknownUser,
    /// The store could not be read; the text says why.
    Unavailable(String),
    /// The stored item is no credential record.
    Corrupt(RecordDefect),
    /// The flow had ended before this result arrived.
    OutOfTurn,
}

/// A verdict over sequences.
pub enum LoginVerdictView {
    Authenticated,
    WrongPassword,
    UnknownUser,
    Unavailable(Seq<char>),
    Corrupt(RecordDefect),
    OutOfTurn,
}

impl View for LoginVerdict {
    type V = LoginVerdictView;

    open spec fn view(&self) -> LoginVerdictView {
        match self {
            LoginVerdict::Authenticated => LoginVerdictView::Authenticated,
            LoginVerdict::WrongPassword => LoginVerdictView::WrongPassword,
            LoginVerdict::UnknownUser => LoginVerdictView::UnknownUser,
            LoginVerdict::Unavailable(why) => LoginVerdictView::Unavailable(why@),
            LoginVerdict::Corrupt(defect) => LoginVerdictView::Corrupt(*defect),
            LoginVerdict::OutOfTurn => LoginVerdictView::OutOfTurn,
        }
    }
}

impl LoginVerdictView {
    /// The outcome that a verdict amounts to. An unknown user and a wrong
    /// password are one outcome; a corrupt record is never either of them.
    pub open spec fn outcome(self) -> LoginOutcome {
        match self {
            LoginVerdictView::Authenticated => LoginOutcome::Success,
            LoginVerdictView::WrongPassword => LoginOutcome::InvalidCredentials,
            LoginVerdictView::UnknownUser => LoginOutcome::InvalidCredentials,
            LoginVerdictView::Unavailable(_) => LoginOutcome::TransientError,
            LoginVerdictView::Corrupt(_) => LoginOutcome::InternalError,
            LoginVerdictView::OutOfTurn => LoginOutcome::InternalError,
        }
    }
}

impl LoginVerdict {
    /// The outcome that this verdict amounts to.
    pub fn outcome(&self) -> (out: LoginOutcome)
        ensures
            out == self@.outcome(),
    {
        match self {
            LoginVerdict::Authenticated => LoginOutcome::Success,
            LoginVerdict::WrongPassword => LoginOutcome::InvalidCredentials,
            LoginVerdict::UnknownUser => LoginOutcome::InvalidCredentials,
            LoginVerdict::Unavailable(_) => LoginOutcome::TransientError,
            LoginVerdict::Corrupt(_) => LoginOutcome::InternalError,
            LoginVerdict::OutOfTurn => LoginOutcome::InternalError,
        }
    }
}

/// Where a login stands.
#[derive(Clone, Debug, PartialEq, Eq)]
pub enum LoginState {
    /// The record was asked for and has not arrived.
    AwaitingRecord { username: String, password: String },
    /// The login has ended with this outcome.
    Concluded(LoginOutcome),
}

/// A login state over sequences.
pub enum LoginStateView {
    AwaitingRecord { username: Seq<char>, password: Seq<char> },
    Concluded(LoginOutcome),
}

impl View for LoginState {
    type V = LoginStateView;

    open spec fn view(&self) -> LoginStateView {
        match self {
            LoginState::AwaitingRecord { username, password } => LoginStateView::AwaitingRecord {
                username: username@,
                password: password@,
            },
            LoginState::Concluded(outcome) => LoginStateView::Concluded(*outcome),
        }
    }
}

/// What the caller of a login does next.
#[derive(Clone, Debug, PartialEq, Eq)]
pub enum LoginAction {
    /// Read the record of this username and hand the result to `step`.
    Fetch { username: String },
    /// Report this verdict; the login is over.
    Finish(LoginVerdict),
}

/// A login action over sequences.
pub enum LoginActionView {
    Fetch { username: Seq<char> },
    Finish(LoginVerdictView),
}

impl View for LoginAction {
    type V = LoginActionView;

    open spec fn view(&self) -> LoginActionView {
        match self {
            LoginAction::Fetch { username } => LoginActionView::Fetch { username: username@ },
            LoginAction::Finish(verdict) => LoginActionView::Finish(verdict@),
        }
    }
}

/// Whether a password matches a sound stored item: it can be hashed, and
/// its verifier under the stored salt is the stored verifier.
pub open spec fn password_matches(
    params: HashingParams,
    password: Seq<char>,
    item: StoredItemView,
) -> bool {
    params.can_hash(password) && item.verifier == AttributeView::Bytes(
        params.verifier_of(item.salt->Bytes_0, password),
    )
}

/// The verdict on a password, given what the store returned for the
/// username. A failed read, a missing record and a corrupt one are told
/// apart before the password is looked at.
pub open spec fn verdict_on(params: HashingParams, password: Seq<char>, read: ReadView) -> LoginVerdictView {
    match read {
        ReadView::Unavailable(why) => LoginVerdictView::Unavailable(why),
        ReadView::Absent => LoginVerdictView::UnknownUser,
        ReadView::Found(item) => match defect_of(item) {
            Some(defect) => LoginVerdictView::Corrupt(defect),
            None => if password_matches(params, password, item) {
                LoginVerdictView::Authenticated
            } else {
                LoginVerdictView::WrongPassword
            },
        },
    }
}

/// The state and the action that follow a state and a read result.
pub open spec fn next(params: HashingParams, state: LoginStateView, read: ReadView) -> (
    LoginStateView,
    LoginActionView,
) {
    match state {
        LoginStateView::AwaitingRecord { username, password } => {
            let verdict = verdict_on(params, password, read);
            (LoginStateView::Concluded(verdict.outcome()), LoginActionView::Finish(verdict))
        },
        LoginStateView::Concluded(outcome) => (
            LoginStateView::Concluded(outcome),
            LoginActionView::Finish(LoginVerdictView::OutOfTurn),
        ),
    }
}

/// Where the store returned no item, the login neither succeeds nor ends
/// in an internal error: it is turned down, or the read is to be retried.
pub proof fn lemma_nothing_found_is_never_success(
    params: HashingParams,
    password: Seq<char>,
    read: ReadView,
)
    requires
        !(read is Found),
    ensures
        verdict_on(params, password, read).outcome() == LoginOutcome::InvalidCredentials
            || verdict_on(params, password, read).outcome() == LoginOutcome::TransientError,
{
}

/// A stored item that is no credential record ends the login in an
/// internal error, whatever the password.
pub proof fn lemma_corrupt_record_is_an_internal_error(
    params: HashingParams,
    password: Seq<char>,
    item: StoredItemView,
)
    requires
        defect_of(item) is Some,
    ensures
        verdict_on(params, password, ReadView::Found(item)).outcome()
            == LoginOutcome::InternalError,
{
}

/// Judges a password against what the store returned for the username.
pub fn judge(service: &HashingService, password: &str, read: ReadResult) -> (out: LoginVerdict)
    ensures
        out@ == verdict_on(service@, password@, read@),
{
    match read {
        ReadResult::Unavailable(why) => LoginVerdict::Unavailable(why),
        ReadResult::Absent => LoginVerdict::UnknownUser,
        ReadResult::Found(item) => match decode_record(&item) {
            Err(defect) => LoginVerdict::Corrupt(defect),
            Ok(record) => match service.derive_verifier(record.salt, password) {
                None => LoginVerdict::WrongPassword,
                Some(computed) => if verifiers_match(&record.verifier, &computed) {
                    LoginVerdict::Authenticated
                } else {
                    LoginVerdict::WrongPassword
                },
            },
        },
    }
}

/// Starts a login: the first action is to fetch the username's record.
pub fn begin(username: String, password: String) -> (out: (LoginState, LoginAction))
    ensures
        out.0@ == (LoginStateView::AwaitingRecord { username: username@, password: password@ }),
        out.1@ == (LoginActionView::Fetch { username: username@ }),
{
    let asked = username.clone();
    (LoginState::AwaitingRecord { username, password }, LoginAction::Fetch { username: asked })
}

/// Takes the result of the read that the last action asked for, and says
/// how the login ends.
pub fn step(service: &HashingService, state: LoginState, read: ReadResult) -> (out: (
    LoginState,
    LoginAction,
))
    ensures
        (out.0@, out.1@) == next(service@, state@, read@),
{
    match state {
        LoginState::AwaitingRecord { username, password } => {
            let verdict = judge(service, password.as_str(), read);
            (LoginState::Concluded(verdict.outcome()), LoginAction::Finish(verdict))
        },
        LoginState::Concluded(outcome) => (
            LoginState::Concluded(outcome),
            LoginAction::Finish(LoginVerdict::OutOfTurn),
        ),
    }
}

} // verus!
