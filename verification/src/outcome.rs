//! How an operation ends: the outcome of the network gate, of account setup
//! and of a whole connect cycle.

use crate::account::{Account, AccountView};
use vstd::prelude::*;

verus! {

/// Why account setup failed.
#[derive(Clone, Copy, Debug, PartialEq, Eq)]
pub enum Failure {
    /// The operator's selection named none of the choices on offer.
    InvalidChoice,
    /// The choice prompt could not be presented.
    PromptFailed,
    /// No certificate authority in the host's chain is trusted.
    UntrustedHost,
    /// The store refused to create the account record.
    CreateFailed,
    /// Linking ran to its end and the device was not linked.
    LinkDeclined,
    /// Linking broke off with an error; the new record was rolled back.
    LinkFailed,
    /// The linked account could not be read back from the store.
    ReadFailed,
    /// Registration is not available.
    NotImplemented,
}

impl Failure {
    /// The text that describes the failure.
    pub open spec fn text(self) -> Seq<char> {
        match self {
            Failure::InvalidChoice => "invalid radio index"@,
            Failure::PromptFailed => "failed to present account setup radio buttons"@,
            Failure::UntrustedHost => "failed to trust host certificate"@,
            Failure::CreateFailed => "failed to create new Account in pddb"@,
            Failure::LinkDeclined => "failed to link Signal Account"@,
            Failure::LinkFailed => "error while linking Signal Account"@,
            Failure::ReadFailed => "failed to read linked Account from pddb"@,
            Failure::NotImplemented => "not implemented"@,
        }
    }

    pub fn message(&self) -> (message: &'static str)
        ensures
            message@ == self.text(),
    {
        match self {
            Failure::InvalidChoice => "invalid radio index",
            Failure::PromptFailed => "failed to present account setup radio buttons",
            Failure::UntrustedHost => "failed to trust host certificate",
            Failure::CreateFailed => "failed to create new Account in pddb",
            Failure::LinkDeclined => "failed to link Signal Account",
            Failure::LinkFailed => "error while linking Signal Account",
            Failure::ReadFailed => "failed to read linked Account from pddb",
            Failure::NotImplemented => "not implemented",
        }
    }
}

/// Why the prompt for the phone number gave none.
#[derive(Clone, Copy, Debug, PartialEq, Eq)]
pub enum NumberError {
    /// The operator entered nothing.
    Empty,
    /// The prompt did not come back with a text.
    PromptFailed,
}

/// How account setup ended.
#[derive(Debug, PartialEq, Eq)]
pub enum SetupOutcome {
    /// An account was set up; this is the record as the store holds it.
    Succeeded(Account),
    /// The operator chose to go on without an account. Not an error.
    Aborted,
    Failed(Failure),
}

/// The mathematical value of a [`SetupOutcome`].
pub enum SetupOutcomeView {
    Succeeded(AccountView),
    Aborted,
    Failed(Failure),
}

impl View for SetupOutcome {
    type V = SetupOutcomeView;

    open spec fn view(&self) -> SetupOutcomeView {
        match self {
            SetupOutcome::Succeeded(account) => SetupOutcomeView::Succeeded(account@),
            SetupOutcome::Aborted => SetupOutcomeView::Aborted,
            SetupOutcome::Failed(failure) => SetupOutcomeView::Failed(*failure),
        }
    }
}

/// Why a connect cycle ended in an error: setup was needed and did not
/// succeed.
#[derive(Clone, Copy, Debug, PartialEq, Eq)]
pub enum ConnectError {
    SetupAborted,
    SetupFailed(Failure),
}

impl ConnectError {
    /// The text that describes the error.
    pub open spec fn text(self) -> Seq<char> {
        match self {
            ConnectError::SetupAborted => "account setup aborted"@,
            ConnectError::SetupFailed(failure) => failure.text(),
        }
    }

    pub fn message(&self) -> (message: &'static str)
        ensures
            message@ == self.text(),
    {
        match self {
            ConnectError::SetupAborted => "account setup aborted",
            ConnectError::SetupFailed(failure) => failure.message(),
        }
    }
}

/// What an operation reports when it is over.
#[derive(Debug, PartialEq, Eq)]
pub enum Outcome {
    /// The network gate: whether the network is usable.
    Network(bool),
    /// Account setup, run for its own sake.
    Setup(SetupOutcome),
    /// A connect cycle: whether a session is live, or why setup gave none.
    Connect(Result<bool, ConnectError>),
}

/// The mathematical value of an [`Outcome`].
pub enum OutcomeView {
    Network(bool),
    Setup(SetupOutcomeView),
    Connect(Result<bool, ConnectError>),
}

impl View for Outcome {
    type V = OutcomeView;

    open spec fn view(&self) -> OutcomeView {
        match self {
            Outcome::Network(up) => OutcomeView::Network(*up),
            Outcome::Setup(outcome) => OutcomeView::Setup(outcome@),
            Outcome::Connect(result) => OutcomeView::Connect(*result),
        }
    }
}

} // verus!
