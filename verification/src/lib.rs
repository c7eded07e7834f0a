//! Password-based authentication core: salted and peppered password
//! verifiers, race-safe registration and login.
//!
//! Each flow is a state machine. It decides what to ask of the credential
//! store and what to make of the answer; the surrounding service performs
//! the store operations and hands the answers back. `model` runs the flows
//! against an abstract store and proves what they guarantee.

pub mod hashing;
pub mod login;
pub mod model;
pub mod registration;
pub mod reply;
pub mod request;
pub mod salt;
pub mod store;

pub use hashing::{compute_verifying_hash, HashingService};
pub use reply::respond_error;
pub use request::{AuthEndpoint, CreateUserRequest, NewSessionRequest, UserEndpoint};
pub use salt::generate_salt;
