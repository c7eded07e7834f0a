//! Replies to the transport: a status, a content type and a JSON body.
//!
//! The flows end in verdicts. This module says which status and which
//! message the service answers each verdict with.

use crate::login::{LoginVerdict, LoginVerdictView};
use crate::registration::{RegistrationVerdict, RegistrationVerdictView};
use crate::store::RecordDefect;
use vstd::prelude::*;

verus! {

/// A reply, ready to be put on the wire.
#[derive(Clone, Debug, PartialEq, Eq)]
pub struct Reply {
    pub status: u16,
    pub content_type: String,
    pub body: String,
}

/// A reply over sequences.
pub struct ReplyView {
    pub status: u16,
    pub content_type: Seq<char>,
    pub body: Seq<char>,
}

impl View for Reply {
    type V = ReplyView;

    open spec fn view(&self) -> ReplyView {
        ReplyView { status: self.status, content_type: self.content_type@, body: self.body@ }
    }
}

/// The status was refused: it is no three-digit number.
#[derive(Clone, Copy, Debug, PartialEq, Eq, Structural)]
pub struct InvalidStatus {
    pub status: u16,
}

/// How a login for an unknown username is answered.
#[derive(Clone, Copy, Debug, PartialEq, Eq, Structural)]
pub enum UnknownUserPolicy {
    /// Say that the user does not exist. This tells a caller which names
    /// are registered.
    Reveal,
    /// Answer as for a wrong password.
    Conceal,
}

/// Whether a number can be the status of a reply: 100 to 999.
pub open spec fn valid_status(status: u16) -> bool {
    100 <= status <= 999
}

/// A JSON reply with the given status and body.
pub open spec fn json_reply(status: u16, body: Seq<char>) -> ReplyView {
    ReplyView { status, content_type: "application/json"@, body }
}

/// The body of an error reply: the message as the one member of an object.
/// The message is put between the quotes as it is.
pub open spec fn error_body(message: Seq<char>) -> Seq<char> {
    "{\"error_message\": \""@ + message + "\"}"@
}

/// The body of a session reply: the token as the one member of an object.
pub open spec fn token_body(token: Seq<char>) -> Seq<char> {
    "{\"token\": \""@ + token + "\"}"@
}

/// The error reply with the given status and message.
pub open spec fn error_reply(status: u16, message: Seq<char>) -> ReplyView {
    json_reply(status, error_body(message))
}

fn wrapped(opening: &str, text: &str) -> (out: String)
    ensures
        out@ == opening@ + text@ + "\"}"@,
{
    let mut out = opening.to_owned();
    out.append(text);
    out.append("\"}");
    out
}

fn reply_with(status: u16, body: String) -> (out: Reply)
    ensures
        out@ == json_reply(status, body@),
{
    Reply { status, content_type: "application/json".to_owned(), body }
}

fn error_with(status: u16, message: &str) -> (out: Reply)
    ensures
        out@ == error_reply(status, message@),
{
    reply_with(status, wrapped("{\"error_message\": \"", message))
}

/// Builds the error reply with the given status and message. A status that
/// is no three-digit number is refused.
pub fn respond_error(status_code: u16, message: &str) -> (out: Result<Reply, InvalidStatus>)
    ensures
        match out {
            Ok(reply) => valid_status(status_code) && reply@ == error_reply(status_code, message@),
            Err(refused) => !valid_status(status_code) && refused.status == status_code,
        },
{
    if 100 <= status_code && status_code <= 999 {
        Ok(error_with(status_code, message))
    } else {
        Err(InvalidStatus { status: status_code })
    }
}

/// The reply to a completed registration: status 201 and an empty body.
pub fn created_reply() -> (out: Reply)
    ensures
        out@ == json_reply(201, Seq::<char>::empty()),
{
    reply_with(201, String::new())
}

/// The reply to a successful login: status 200 and the session token.
pub fn session_reply(token: &str) -> (out: Reply)
    ensures
        out@ == json_reply(200, token_body(token@)),
{
    reply_with(200, wrapped("{\"token\": \"", token))
}

/// The reply to a request whose body could not be decoded: status 400 and
/// the body itself in the message.
pub fn undecodable_reply(body: &str) -> (out: Reply)
    ensures
        out@ == error_reply(400, "Deserialization error: "@ + body@),
{
    let mut message = "Deserialization error: ".to_owned();
    message.append(body);
    error_with(400, message.as_str())
}

/// The message that a failed read of the store is answered with.
pub open spec fn read_failure_message(why: Seq<char>) -> Seq<char> {
    "Temporary error; Could not read from user authentication table. "@ + why
}

fn read_failure_reply(why: &str) -> (out: Reply)
    ensures
        out@ == error_reply(503, read_failure_message(why@)),
{
    let mut message =
        "Temporary error; Could not read from user authentication table. ".to_owned();
    message.append(why);
    error_with(503, message.as_str())
}

/// The reply that answers each registration verdict.
pub open spec fn registration_reply_for(verdict: RegistrationVerdictView) -> ReplyView {
    match verdict {
        RegistrationVerdictView::Registered => json_reply(201, Seq::<char>::empty()),
        RegistrationVerdictView::TakenAtCheck => error_reply(
            409,
            "Chosen username is unavailable."@,
        ),
        RegistrationVerdictView::TakenAtWrite => error_reply(
            409,
            "Chosen username is unavailable"@,
        ),
        RegistrationVerdictView::ReadUnavailable(why) => error_reply(
            503,
            read_failure_message(why),
        ),
        RegistrationVerdictView::WriteUnavailable => error_reply(
            502,
            "Error communicating with user authentication database"@,
        ),
        RegistrationVerdictView::Unhashable => error_reply(500, "Password length error"@),
        RegistrationVerdictView::OutOfTurn => error_reply(500, "Internal error"@),
    }
}

/// Builds the reply to a registration verdict.
pub fn registration_reply(verdict: &RegistrationVerdict) -> (out: Reply)
    ensures
        out@ == registration_reply_for(verdict@),
{
    match verdict {
        RegistrationVerdict::Registered => created_reply(),
        RegistrationVerdict::TakenAtCheck => error_with(409, "Chosen username is unavailable."),
        RegistrationVerdict::TakenAtWrite => error_with(409, "Chosen username is unavailable"),
        RegistrationVerdict::ReadUnavailable(why) => read_failure_reply(why.as_str()),
        RegistrationVerdict::WriteUnavailable => error_with(
            502,
            "Error communicating with user authentication database",
        ),
        RegistrationVerdict::Unhashable => error_with(500, "Password length error"),
        RegistrationVerdict::OutOfTurn => error_with(500, "Internal error"),
    }
}

/// The message for a stored item that is no credential record.
pub open spec fn defect_message(defect: RecordDefect) -> Seq<char> {
    match defect {
        RecordDefect::SaltAbsent => "Internal error"@,
        RecordDefect::SaltLength => "Salt length error"@,
        RecordDefect::VerifierAbsent => "Internal error"@,
        RecordDefect::VerifierLength => "Verifier length error"@,
    }
}

/// The reply that answers each login verdict, under a policy for unknown
/// usernames and with the token that a successful login hands out.
pub open spec fn login_reply_for(
    verdict: LoginVerdictView,
    policy: UnknownUserPolicy,
    token: Seq<char>,
) -> ReplyView {
    match verdict {
        LoginVerdictView::Authenticated => json_reply(200, token_body(token)),
        LoginVerdictView::WrongPassword => error_reply(401, "Incorrect password"@),
        LoginVerdictView::UnknownUser => match policy {
            UnknownUserPolicy::Reveal => error_reply(404, "User doesn't exist"@),
            UnknownUserPolicy::Conceal => error_reply(401, "Incorrect password"@),
        },
        LoginVerdictView::Unavailable(why) => error_reply(503, read_failure_message(why)),
        LoginVerdictView::Corrupt(defect) => error_reply(500, defect_message(defect)),
        LoginVerdictView::OutOfTurn => error_reply(500, "Internal error"@),
    }
}

/// Builds the reply to a login verdict. The token is used for a successful
/// login only.
pub fn login_reply(verdict: &LoginVerdict, policy: UnknownUserPolicy, token: &str) -> (out: Reply)
    ensures
        out@ == login_reply_for(verdict@, policy, token@),
{
    match verdict {
        LoginVerdict::Authenticated => session_reply(token),
        LoginVerdict::WrongPassword => error_with(401, "Incorrect password"),
        LoginVerdict::UnknownUser => match policy {
            UnknownUserPolicy::Reveal => error_with(404, "User doesn't exist"),
            UnknownUserPolicy::Conceal => error_with(401, "Incorrect password"),
        },
        LoginVerdict::Unavailable(why) => read_failure_reply(why.as_str()),
        LoginVerdict::Corrupt(defect) => match defect {
            RecordDefect::SaltAbsent => error_with(500, "Internal error"),
            RecordDefect::SaltLength => error_with(500, "Salt length error"),
            RecordDefect::VerifierAbsent => error_with(500, "Internal error"),
            RecordDefect::VerifierLength => error_with(500, "Verifier length error"),
        },
        LoginVerdict::OutOfTurn => error_with(500, "Internal error"),
    }
}

/// Every reply that answers a verdict carries a status that the transport
/// accepts.
pub proof fn lemma_verdict_replies_have_valid_status(
    registration: RegistrationVerdictView,
    login: LoginVerdictView,
    policy: UnknownUserPolicy,
    token: Seq<char>,
)
    ensures
        valid_status(registration_reply_for(registration).status),
        valid_status(login_reply_for(login, policy, token).status),
{
}

} // verus!
