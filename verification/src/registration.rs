//! The registration flow.
//!
//! A registration first looks the username up, so that a taken name is
//! refused before any hashing is paid for. That look-up is a shortcut and
//! decides nothing: between it and the write another registration may take
//! the name. What decides is the store's conditional creation, whose
//! answer is the flow's last input. Between the two the flow draws a salt
//! and derives the verifier; the password is kept no longer than that.

use crate::hashing::{HashingParams, HashingService};
use crate::salt::generate_salt;
use crate::store::{CredentialRecord, ReadResult, ReadView, RecordView, WriteResult};
use vstd::prelude::*;

verus! {

/// How a registration ends, as the caller of the service sees it.
#[derive(Clone, Copy, Debug, PartialEq, Eq, Structural)]
pub enum RegistrationOutcome {
    Success,
    Conflict,
    TransientError,
    InternalError,
}

/// Why a registration was turned down.
#[derive(Clone, Copy, Debug, PartialEq, Eq, Structural)]
pub enum Rejection {
    /// The username is taken.
    Conflict,
    /// The store could not be reached for the moment.
    Transient,
    /// The password cannot be hashed, or the flow was driven out of turn.
    Internal,
}

/// How a registration ends, with its cause.
#[derive(Clone, Debug, PartialEq, Eq)]
pub enum RegistrationVerdict {
    /// The record was created.
    Registered,
    /// The look-up found the username taken.
    TakenAtCheck,
    /// The store refused the creation: the username was taken by then.
    TakenAtWrite,
    /// The look-up failed; the text says why.
    ReadUnavailable(String),
    /// The creation failed for another reason than a taken name.
    WriteUnavailable,
    /// The password with the pepper is empty or longer than the hash takes.
    Unhashable,
    /// The result that arrived is not the one the flow was waiting for.
    OutOfTurn,
}

/// A verdict over sequences.
pub enum RegistrationVerdictView {
    Registered,
    TakenAtCheck,
    TakenAtWrite,
    ReadUnavailable(Seq<char>),
    WriteUnavailable,
    Unhashable,
    OutOfTurn,
}

impl View for RegistrationVerdict {
    type V = RegistrationVerdictView;

    open spec fn view(&self) -> RegistrationVerdictView {
        match self {
            RegistrationVerdict::Registered => RegistrationVerdictView::Registered,
            RegistrationVerdict::TakenAtCheck => RegistrationVerdictView::TakenAtCheck,
            RegistrationVerdict::TakenAtWrite => RegistrationVerdictView::TakenAtWrite,
            RegistrationVerdict::ReadUnavailable(why) => RegistrationVerdictView::ReadUnavailable(
                why@,
            ),
            RegistrationVerdict::WriteUnavailable => RegistrationVerdictView::WriteUnavailable,
            RegistrationVerdict::Unhashable => RegistrationVerdictView::Unhashable,
            RegistrationVerdict::OutOfTurn => RegistrationVerdictView::OutOfTurn,
        }
    }
}

impl RegistrationVerdictView {
    /// The outcome that a verdict amounts to.
    pub open spec fn outcome(self) -> RegistrationOutcome {
        match self {
            RegistrationVerdictView::Registered => RegistrationOutcome::Success,
            RegistrationVerdictView::TakenAtCheck => RegistrationOutcome::Conflict,
            RegistrationVerdictView::TakenAtWrite => RegistrationOutcome::Conflict,
            RegistrationVerdictView::ReadUnavailable(_) => RegistrationOutcome::TransientError,
            RegistrationVerdictView::WriteUnavailable => RegistrationOutcome::TransientError,
            RegistrationVerdictView::Unhashable => RegistrationOutcome::InternalError,
            RegistrationVerdictView::OutOfTurn => RegistrationOutcome::InternalError,
        }
    }
}

impl RegistrationVerdict {
    /// The outcome that this verdict amounts to.
    pub fn outcome(&self) -> (out: RegistrationOutcome)
        ensures
            out == self@.outcome(),
    {
        match self {
            RegistrationVerdict::Registered => RegistrationOutcome::Success,
            RegistrationVerdict::TakenAtCheck => RegistrationOutcome::Conflict,
            RegistrationVerdict::TakenAtWrite => RegistrationOutcome::Conflict,
            RegistrationVerdict::ReadUnavailable(_) => RegistrationOutcome::TransientError,
            RegistrationVerdict::WriteUnavailable => RegistrationOutcome::TransientError,
            RegistrationVerdict::Unhashable => RegistrationOutcome::InternalError,
            RegistrationVerdict::OutOfTurn => RegistrationOutcome::InternalError,
        }
    }
}

/// Where a registration stands. Between `Start` and `Hashed` the flow
/// knows the name to be absent and derives the verifier; it does so within
/// one step, so no state is kept for that moment.
#[derive(Clone, Debug, PartialEq, Eq)]
pub enum RegistrationState {
    /// The look-up was asked for and has not been answered.
    Start { username: String, password: String },
    /// The verifier is derived and the creation was asked for.
    Hashed { username: String, record: CredentialRecord },
    /// The record was created: the registration succeeded.
    Committed,
    /// The registration was turned down.
    Rejected(Rejection),
}

/// A registration state over sequences.
pub enum RegistrationStateView {
    Start { username: Seq<char>, password: Seq<char> },
    Hashed { username: Seq<char>, record: RecordView },
    Committed,
    Rejected(Rejection),
}

impl View for RegistrationState {
    type V = RegistrationStateView;

    open spec fn view(&self) -> RegistrationStateView {
        match self {
            RegistrationState::Start { username, password } => RegistrationStateView::Start {
                username: username@,
                password: password@,
            },
            RegistrationState::Hashed { username, record } => RegistrationStateView::Hashed {
                username: username@,
                record: record@,
            },
            RegistrationState::Committed => RegistrationStateView::Committed,
            RegistrationState::Rejected(rejection) => RegistrationStateView::Rejected(*rejection),
        }
    }
}

impl RegistrationStateView {
    /// Whether the flow has ended in this state.
    pub open spec fn is_final(self) -> bool {
        self is Committed || self is Rejected
    }
}

/// What the store answered to the flow's last action.
#[derive(Clone, Debug, PartialEq, Eq)]
pub enum RegistrationEvent {
    /// The answer to a look-up.
    Read(ReadResult),
    /// The answer to a conditional creation.
    Written(WriteResult),
}

/// A registration event over sequences.
pub enum RegistrationEventView {
    Read(ReadView),
    Written(WriteResult),
}

impl View for RegistrationEvent {
    type V = RegistrationEventView;

    open spec fn view(&self) -> RegistrationEventView {
        match self {
            RegistrationEvent::Read(read) => RegistrationEventView::Read(read@),
            RegistrationEvent::Written(written) => RegistrationEventView::Written(*written),
        }
    }
}

/// What the caller of a registration does next.
#[derive(Clone, Debug, PartialEq, Eq)]
pub enum RegistrationAction {
    /// Read the record of this username and hand the result to `step`.
    Lookup { username: String },
    /// Create this record unless one exists for the username, in one
    /// conditional write, and hand the result to `step`.
    Create { username: String, record: CredentialRecord },
    /// Report this verdict; the registration is over.
    Finish(RegistrationVerdict),
}

/// A registration action over sequences.
pub enum RegistrationActionView {
    Lookup { username: Seq<char> },
    Create { username: Seq<char>, record: RecordView },
    Finish(RegistrationVerdictView),
}

impl View for RegistrationAction {
    type V = RegistrationActionView;

    open spec fn view(&self) -> RegistrationActionView {
        match self {
            RegistrationAction::Lookup { username } => RegistrationActionView::Lookup {
                username: username@,
            },
            RegistrationAction::Create { username, record } => RegistrationActionView::Create {
                username: username@,
                record: record@,
            },
            RegistrationAction::Finish(verdict) => RegistrationActionView::Finish(verdict@),
        }
    }
}

/// A flow that ends here: the state and the action for a verdict.
pub open spec fn ended(verdict: RegistrationVerdictView) -> (
    RegistrationStateView,
    RegistrationActionView,
) {
    let state = match verdict.outcome() {
        RegistrationOutcome::Success => RegistrationStateView::Committed,
        RegistrationOutcome::Conflict => RegistrationStateView::Rejected(Rejection::Conflict),
        RegistrationOutcome::TransientError => RegistrationStateView::Rejected(
            Rejection::Transient,
        ),
        RegistrationOutcome::InternalError => RegistrationStateView::Rejected(Rejection::Internal),
    };
    (state, RegistrationActionView::Finish(verdict))
}

/// The record that a registration writes for a password under a salt.
pub open spec fn record_for(params: HashingParams, salt: Seq<u8>, password: Seq<char>) -> RecordView {
    RecordView { salt, verifier: params.verifier_of(salt, password) }
}

/// The state and the action that follow a state and an event, where `salt`
/// is the salt that the flow draws if it comes to hashing.
pub open spec fn next(
    params: HashingParams,
    state: RegistrationStateView,
    event: RegistrationEventView,
    salt: Seq<u8>,
) -> (RegistrationStateView, RegistrationActionView) {
    match state {
        RegistrationStateView::Start { username, password } => match event {
            RegistrationEventView::Read(ReadView::Unavailable(why)) => ended(
                RegistrationVerdictView::ReadUnavailable(why),
            ),
            RegistrationEventView::Read(ReadView::Found(_)) => ended(
                RegistrationVerdictView::TakenAtCheck,
            ),
            RegistrationEventView::Read(ReadView::Absent) => if params.can_hash(password) {
                let record = record_for(params, salt, password);
                (
                    RegistrationStateView::Hashed { username, record },
                    RegistrationActionView::Create { username, record },
                )
            } else {
                ended(RegistrationVerdictView::Unhashable)
            },
            RegistrationEventView::Written(_) => ended(RegistrationVerdictView::OutOfTurn),
        },
        RegistrationStateView::Hashed { username, record } => match event {
            RegistrationEventView::Written(WriteResult::Created) => ended(
                RegistrationVerdictView::Registered,
            ),
            RegistrationEventView::Written(WriteResult::AlreadyExists) => ended(
                RegistrationVerdictView::TakenAtWrite,
            ),
            RegistrationEventView::Written(WriteResult::Unavailable) => ended(
                RegistrationVerdictView::WriteUnavailable,
            ),
            RegistrationEventView::Read(_) => ended(RegistrationVerdictView::OutOfTurn),
        },
        RegistrationStateView::Committed => (
            state,
            RegistrationActionView::Finish(RegistrationVerdictView::OutOfTurn),
        ),
        RegistrationStateView::Rejected(_) => (
            state,
            RegistrationActionView::Finish(RegistrationVerdictView::OutOfTurn),
        ),
    }
}

fn end_with(verdict: RegistrationVerdict) -> (out: (RegistrationState, RegistrationAction))
    ensures
        (out.0@, out.1@) == ended(verdict@),
{
    let state = match verdict.outcome() {
        RegistrationOutcome::Success => RegistrationState::Committed,
        RegistrationOutcome::Conflict => RegistrationState::Rejected(Rejection::Conflict),
        RegistrationOutcome::TransientError => RegistrationState::Rejected(Rejection::Transient),
        RegistrationOutcome::InternalError => RegistrationState::Rejected(Rejection::Internal),
    };
    (state, RegistrationAction::Finish(verdict))
}

/// Where the salt of a registration comes from.
enum SaltSource {
    Fresh,
    Given([u8; 16]),
}

fn advance(
    service: &HashingService,
    state: RegistrationState,
    event: RegistrationEvent,
    source: SaltSource,
) -> (out: (RegistrationState, RegistrationAction))
    ensures
        exists|salt: [u8; 16]|
            (source matches SaltSource::Given(given) ==> salt == given) && (out.0@, out.1@)
                == #[trigger] next(service@, state@, event@, salt@),
{
    match state {
        RegistrationState::Start { username, password } => match event {
            RegistrationEvent::Read(ReadResult::Unavailable(why)) => {
                let out = end_with(RegistrationVerdict::ReadUnavailable(why));
                proof {
                    lemma_salt_unused(service@, state@, event@, source, out);
                }
                out
            },
            RegistrationEvent::Read(ReadResult::Found(_)) => {
                let out = end_with(RegistrationVerdict::TakenAtCheck);
                proof {
                    lemma_salt_unused(service@, state@, event@, source, out);
                }
                out
            },
            RegistrationEvent::Read(ReadResult::Absent) => {
                let salt = match source {
                    SaltSource::Fresh => generate_salt(),
                    SaltSource::Given(given) => given,
                };
                let out = match service.derive_verifier(salt, password.as_str()) {
                    Some(verifier) => {
                        let record = CredentialRecord { salt, verifier };
                        let asked = username.clone();
                        (
                            RegistrationState::Hashed { username, record },
                            RegistrationAction::Create { username: asked, record },
                        )
                    },
                    None => end_with(RegistrationVerdict::Unhashable),
                };
                assert((out.0@, out.1@) == next(service@, state@, event@, salt@));
                out
            },
            RegistrationEvent::Written(_) => {
                let out = end_with(RegistrationVerdict::OutOfTurn);
                proof {
                    lemma_salt_unused(service@, state@, event@, source, out);
                }
                out
            },
        },
        RegistrationState::Hashed { username, record } => {
            let out = match event {
                RegistrationEvent::Written(WriteResult::Created) => end_with(
                    RegistrationVerdict::Registered,
                ),
                RegistrationEvent::Written(WriteResult::AlreadyExists) => end_with(
                    RegistrationVerdict::TakenAtWrite,
                ),
                RegistrationEvent::Written(WriteResult::Unavailable) => end_with(
                    RegistrationVerdict::WriteUnavailable,
                ),
                RegistrationEvent::Read(_) => end_with(RegistrationVerdict::OutOfTurn),
            };
            proof {
                lemma_salt_unused(service@, state@, event@, source, out);
            }
            out
        },
        RegistrationState::Committed => {
            let out = (
                RegistrationState::Committed,
                RegistrationAction::Finish(RegistrationVerdict::OutOfTurn),
            );
            proof {
                lemma_salt_unused(service@, state@, event@, source, out);
            }
            out
        },
        RegistrationState::Rejected(rejection) => {
            let out = (
                RegistrationState::Rejected(rejection),
                RegistrationAction::Finish(RegistrationVerdict::OutOfTurn),
            );
            proof {
                lemma_salt_unused(service@, state@, event@, source, out);
            }
            out
        },
    }
}

proof fn lemma_salt_unused(
    params: HashingParams,
    state: RegistrationStateView,
    event: RegistrationEventView,
    source: SaltSource,
    out: (RegistrationState, RegistrationAction),
)
    requires
        !(state is Start && event == RegistrationEventView::Read(ReadView::Absent)),
        forall|salt: Seq<u8>| (out.0@, out.1@) == next(params, state, event, salt),
    ensures
        exists|salt: [u8; 16]|
            (source matches SaltSource::Given(given) ==> salt == given) && (out.0@, out.1@)
                == #[trigger] next(params, state, event, salt@),
{
    let salt: [u8; 16] = match source {
        SaltSource::Given(given) => given,
        SaltSource::Fresh => arbitrary(),
    };
    assert((out.0@, out.1@) == next(params, state, event, salt@));
}

/// Starts a registration: the first action is to look the username up.
pub fn begin(username: String, password: String) -> (out: (RegistrationState, RegistrationAction))
    ensures
        out.0@ == (RegistrationStateView::Start { username: username@, password: password@ }),
        out.1@ == (RegistrationActionView::Lookup { username: username@ }),
{
    let asked = username.clone();
    (RegistrationState::Start { username, password }, RegistrationAction::Lookup { username: asked })
}

/// Takes the store's answer to the last action and says what follows, with
/// `salt` as the salt of the record if the flow comes to hashing.
pub fn step_with_salt(
    service: &HashingService,
    state: RegistrationState,
    event: RegistrationEvent,
    salt: [u8; 16],
) -> (out: (RegistrationState, RegistrationAction))
    ensures
        (out.0@, out.1@) == next(service@, state@, event@, salt@),
{
    advance(service, state, event, SaltSource::Given(salt))
}

/// Takes the store's answer to the last action and says what follows. If
/// the flow comes to hashing, it draws a fresh salt; whatever the salt is,
/// the step is the one that `next` gives for it.
pub fn step(service: &HashingService, state: RegistrationState, event: RegistrationEvent) -> (out: (
    RegistrationState,
    RegistrationAction,
))
    ensures
        exists|salt: [u8; 16]|
            (out.0@, out.1@) == #[trigger] next(service@, state@, event@, salt@),
{
    advance(service, state, event, SaltSource::Fresh)
}

} // verus!
