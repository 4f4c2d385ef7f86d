//! Self-service account registration: pre-checks, password hashing and the
//! transactional provisioning workflow, as a state machine that a driver runs
//! against a durable store, a token issuer and a mailer.

pub mod collaborators;
pub mod laws;
pub mod store;
pub mod types;
pub mod workflow;

pub use types::{Registration, RegistrationError, RegistrationPost, Role, Settings};
pub use workflow::{begin_registration, register, Action, Event, Phase, Registering};
