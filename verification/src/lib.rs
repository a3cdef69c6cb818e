//! Onboarding and connectivity decisions of a secure messaging client:
//! making sure of a network, trusting a host before any credential is
//! exchanged, and setting up the one account that a session needs.
//!
//! The library performs no input or output. It decides: every operation
//! returns a [`Step`] that holds the signals to show and then either the
//! one request to perform or the outcome, and is carried on with the
//! [`Event`] that answers the request.

pub mod account;
pub mod host;
pub mod laws;
pub mod model;
pub mod outcome;
pub mod protocol;
pub mod session;

pub use account::{Account, Config, Manager, ServiceEnvironment, TrustMode};
pub use host::{HostEndpoint, ParsedHost, DEFAULT_HOST};
pub use model::{Flow, Goal, TICK_MILLIS, WIFI_TIMEOUT};
pub use outcome::{ConnectError, Failure, NumberError, Outcome, SetupOutcome};
pub use protocol::{
    Choice, Effect, Event, Field, Menu, Next, Notice, Request, Selection, Status, Step,
    DEFAULT_DEVICE_NAME, SIGCHAT_ACCOUNT, SIGCHAT_DIALOGUE,
};
pub use session::SigChat;
