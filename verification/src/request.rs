//! The requests that the service accepts, once decoded.

use crate::login::{LoginAction, LoginActionView, LoginState, LoginStateView};
use crate::registration::{
    RegistrationAction, RegistrationActionView, RegistrationState, RegistrationStateView,
};
use vstd::prelude::*;

verus! {

/// A request to open a session: a login.
#[derive(Clone, Debug, PartialEq, Eq)]
pub struct NewSessionRequest {
    pub username: String,
    pub password: String,
}

impl NewSessionRequest {
    /// The username and the password, in this order.
    pub fn into_parts(self) -> (out: (String, String))
        ensures
            out == (self.username, self.password),
    {
        (self.username, self.password)
    }
}

/// What can be asked of the session endpoint.
#[derive(Clone, Debug, PartialEq, Eq)]
pub enum AuthEndpoint {
    Post(NewSessionRequest),
}

impl AuthEndpoint {
    /// Starts the flow that the request asks for: a login with the
    /// request's username and password.
    pub fn start(self) -> (out: (LoginState, LoginAction))
        ensures
            self matches AuthEndpoint::Post(request) && out.0@ == (LoginStateView::AwaitingRecord {
                username: request.username@,
                password: request.password@,
            }) && out.1@ == (LoginActionView::Fetch { username: request.username@ }),
    {
        match self {
            AuthEndpoint::Post(request) => {
                let (username, password) = request.into_parts();
                crate::login::begin(username, password)
            },
        }
    }
}

/// A request to create a user: a registration.
#[derive(Clone, Debug, PartialEq, Eq)]
pub struct CreateUserRequest {
    pub username: String,
    pub password: String,
}

impl CreateUserRequest {
    /// The username and the password, in this order.
    pub fn into_parts(self) -> (out: (String, String))
        ensures
            out == (self.username, self.password),
    {
        (self.username, self.password)
    }
}

/// What can be asked of the user endpoint.
#[derive(Clone, Debug, PartialEq, Eq)]
pub enum UserEndpoint {
    Post(CreateUserRequest),
}

impl UserEndpoint {
    /// Starts the flow that the request asks for: a registration with the
    /// request's username and password.
    pub fn start(self) -> (out: (RegistrationState, RegistrationAction))
        ensures
            self matches UserEndpoint::Post(request) && out.0@ == (RegistrationStateView::Start {
                username: request.username@,
                password: request.password@,
            }) && out.1@ == (RegistrationActionView::Lookup { username: request.username@ }),
    {
        match self {
            UserEndpoint::Post(request) => {
                let (username, password) = request.into_parts();
                crate::registration::begin(username, password)
            },
        }
    }
}

} // verus!
