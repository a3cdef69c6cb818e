//! The vocabulary between the library and whoever drives it: the signals
//! to show, the requests to perform, and the events that answer them.

use crate::account::{
    Account, AccountView, Manager, ManagerView, ServiceEnvironment, TrustMode,
};
use crate::host::{HostEndpoint, DEFAULT_HOST};
use crate::outcome::{Outcome, OutcomeView};
use vstd::prelude::*;

verus! {

/// The device name offered when a device is linked.
pub const DEFAULT_DEVICE_NAME: &'static str = "xous";

/// The store's key for the account record.
pub const SIGCHAT_ACCOUNT: &'static str = "sigchat.account";

/// The store's key for the dialogues.
pub const SIGCHAT_DIALOGUE: &'static str = "sigchat.dialogue";

/// The status line of the presentation layer.
#[derive(Clone, Copy, Debug, PartialEq, Eq)]
pub enum Status {
    Probing,
    Initializing,
    Connecting,
    Online,
    Offline,
}

/// A message that the operator reads and dismisses.
#[derive(Debug, PartialEq, Eq)]
pub enum Notice {
    /// There is no network, and the operator did not want one.
    NoNetwork,
    /// The text entered is not a domain name.
    InvalidHost,
    /// The host is not trusted; setup stops here.
    SetupAborted,
    /// The account record could not be created.
    AccountFailed,
    /// Registration is not available yet.
    RegistrationUnavailable,
    /// The words of an error, as they came.
    Message(String),
}

/// The mathematical value of a [`Notice`].
pub enum NoticeView {
    NoNetwork,
    InvalidHost,
    SetupAborted,
    AccountFailed,
    RegistrationUnavailable,
    Message(Seq<char>),
}

impl View for Notice {
    type V = NoticeView;

    open spec fn view(&self) -> NoticeView {
        match self {
            Notice::NoNetwork => NoticeView::NoNetwork,
            Notice::InvalidHost => NoticeView::InvalidHost,
            Notice::SetupAborted => NoticeView::SetupAborted,
            Notice::AccountFailed => NoticeView::AccountFailed,
            Notice::RegistrationUnavailable => NoticeView::RegistrationUnavailable,
            Notice::Message(text) => NoticeView::Message(text@),
        }
    }
}

/// A signal to the presentation layer or to the session's owner. Signals
/// are best effort: nothing waits for an answer.
#[derive(Debug, PartialEq, Eq)]
pub enum Effect {
    Status(Status),
    Busy(bool),
    /// Opens the progress indicator of the network wait.
    ProgressStart { first: u32, last: u32, current: u32 },
    ProgressUpdate(u32),
    ProgressFinish,
    Notify(Notice),
    /// Build the live account manager from this, in place of any other.
    Install(Manager),
    Redraw,
    Help,
    /// Show the dialogue of this room, stored under [`SIGCHAT_DIALOGUE`].
    Dialogue(Option<String>),
}

/// The mathematical value of an [`Effect`].
pub enum EffectView {
    Status(Status),
    Busy(bool),
    ProgressStart { first: u32, last: u32, current: u32 },
    ProgressUpdate(u32),
    ProgressFinish,
    Notify(NoticeView),
    Install(ManagerView),
    Redraw,
    Help,
    Dialogue(Option<Seq<char>>),
}

impl View for Effect {
    type V = EffectView;

    open spec fn view(&self) -> EffectView {
        match self {
            Effect::Status(status) => EffectView::Status(*status),
            Effect::Busy(busy) => EffectView::Busy(*busy),
            Effect::ProgressStart { first, last, current } => EffectView::ProgressStart {
                first: *first,
                last: *last,
                current: *current,
            },
            Effect::ProgressUpdate(current) => EffectView::ProgressUpdate(*current),
            Effect::ProgressFinish => EffectView::ProgressFinish,
            Effect::Notify(notice) => EffectView::Notify(notice@),
            Effect::Install(manager) => EffectView::Install(manager@),
            Effect::Redraw => EffectView::Redraw,
            Effect::Help => EffectView::Help,
            Effect::Dialogue(room) => EffectView::Dialogue(
                match room {
                    Some(alias) => Some(alias@),
                    None => None,
                },
            ),
        }
    }
}

/// The signals of a step, in the order in which they are to be shown.
pub open spec fn effects_view(effects: Seq<Effect>) -> Seq<EffectView> {
    effects.map_values(|effect: Effect| effect@)
}

/// A single-select prompt.
#[derive(Clone, Copy, Debug, PartialEq, Eq)]
pub enum Menu {
    /// "Connect to WiFi?"
    ConnectWifi,
    /// How to set up an account.
    AccountSetup,
}

/// One line of a [`Menu`].
#[derive(Clone, Copy, Debug, PartialEq, Eq)]
pub enum Choice {
    Yes,
    No,
    /// Link this device to an existing account.
    Link,
    /// Register a new account.
    Register,
    /// Go on without an account.
    Offline,
}

/// The lines of a menu, in the order in which they are shown.
pub open spec fn options(menu: Menu) -> Seq<Choice> {
    match menu {
        Menu::ConnectWifi => seq![Choice::Yes, Choice::No],
        Menu::AccountSetup => seq![Choice::Link, Choice::Register, Choice::Offline],
    }
}

impl Menu {
    pub fn options(&self) -> (lines: Vec<Choice>)
        ensures
            lines@ == options(*self),
    {
        let mut lines: Vec<Choice> = Vec::new();
        match self {
            Menu::ConnectWifi => {
                lines.push(Choice::Yes);
                lines.push(Choice::No);
            },
            Menu::AccountSetup => {
                lines.push(Choice::Link);
                lines.push(Choice::Register);
                lines.push(Choice::Offline);
            },
        }
        assert(lines@ =~= options(*self));
        lines
    }
}

/// What the operator made of a single-select prompt.
#[derive(Clone, Copy, Debug, PartialEq, Eq)]
pub enum Selection {
    Picked(Choice),
    /// An index that names no line of the menu.
    OutOfRange,
    /// No selection came back.
    Failed,
}

/// A free-text prompt.
#[derive(Clone, Copy, Debug, PartialEq, Eq)]
pub enum Field {
    Host,
    DeviceName,
    PhoneNumber,
}

/// The built-in text that a prompt offers, where it has one.
pub open spec fn suggestion(field: Field) -> Option<Seq<char>> {
    match field {
        Field::Host => Some(DEFAULT_HOST@),
        Field::DeviceName => Some(DEFAULT_DEVICE_NAME@),
        Field::PhoneNumber => None,
    }
}

impl Field {
    pub fn suggestion(&self) -> (text: Option<&'static str>)
        ensures
            match suggestion(*self) {
                Some(built_in) => text matches Some(offered) && offered@ == built_in,
                None => text is None,
            },
    {
        match self {
            Field::Host => Some(DEFAULT_HOST),
            Field::DeviceName => Some(DEFAULT_DEVICE_NAME),
            Field::PhoneNumber => None,
        }
    }
}

/// What the driver is to do next, and answer with an [`Event`].
#[derive(Debug, PartialEq, Eq)]
pub enum Request {
    /// Is the network bound to an address? Answered without waiting.
    NetworkStatus,
    /// Tell the network layer to begin association.
    Associate,
    Sleep { millis: u32 },
    Choose(Menu),
    Prompt(Field),
    /// Ask the TLS verifier whether a certificate authority in the host's
    /// chain is trusted.
    Probe { host: HostEndpoint, accept_first_use: bool },
    ReadAccount,
    /// Create the account record; the store refuses if there is one.
    CreateAccount { host: HostEndpoint, environment: ServiceEnvironment },
    DeleteAccount,
    /// Set the phone number of the account record.
    SetNumber { number: String },
    /// Link this device, under `device_name`, through an account manager
    /// built for `account`.
    Link { account: Account, trust_mode: TrustMode, device_name: String },
}

/// The mathematical value of a [`Request`].
pub enum RequestView {
    NetworkStatus,
    Associate,
    Sleep { millis: u32 },
    Choose(Menu),
    Prompt(Field),
    Probe { host: Seq<char>, accept_first_use: bool },
    ReadAccount,
    CreateAccount { host: Seq<char>, environment: ServiceEnvironment },
    DeleteAccount,
    SetNumber { number: Seq<char> },
    Link { account: AccountView, trust_mode: TrustMode, device_name: Seq<char> },
}

impl View for Request {
    type V = RequestView;

    open spec fn view(&self) -> RequestView {
        match self {
            Request::NetworkStatus => RequestView::NetworkStatus,
            Request::Associate => RequestView::Associate,
            Request::Sleep { millis } => RequestView::Sleep { millis: *millis },
            Request::Choose(menu) => RequestView::Choose(*menu),
            Request::Prompt(field) => RequestView::Prompt(*field),
            Request::Probe { host, accept_first_use } => RequestView::Probe {
                host: host@,
                accept_first_use: *accept_first_use,
            },
            Request::ReadAccount => RequestView::ReadAccount,
            Request::CreateAccount { host, environment } => RequestView::CreateAccount {
                host: host@,
                environment: *environment,
            },
            Request::DeleteAccount => RequestView::DeleteAccount,
            Request::SetNumber { number } => RequestView::SetNumber { number: number@ },
            Request::Link { account, trust_mode, device_name } => RequestView::Link {
                account: account@,
                trust_mode: *trust_mode,
                device_name: device_name@,
            },
        }
    }
}

/// The answer to a [`Request`]. An answer that is not the success of the
/// request it answers counts as its failure.
#[derive(Debug, PartialEq, Eq)]
pub enum Event {
    /// Whether the network is bound.
    Bound(bool),
    /// Whether association began.
    Associated(bool),
    /// The sleep is over.
    Elapsed,
    /// The index selected; none if the prompt failed.
    Chosen(Option<u32>),
    /// The text entered; none if the prompt failed.
    Text(Option<String>),
    /// The verdict of the TLS verifier.
    Trusted(bool),
    /// The record read or created; none if the store failed.
    Account(Option<Account>),
    /// Whether the store did as it was told.
    Stored(bool),
    /// Whether the device was linked, or the words of the error.
    Linked(Result<bool, String>),
}

/// The mathematical value of an [`Event`].
pub enum EventView {
    Bound(bool),
    Associated(bool),
    Elapsed,
    Chosen(Option<u32>),
    Text(Option<Seq<char>>),
    Trusted(bool),
    Account(Option<AccountView>),
    Stored(bool),
    Linked(Result<bool, Seq<char>>),
}

impl View for Event {
    type V = EventView;

    open spec fn view(&self) -> EventView {
        match self {
            Event::Bound(bound) => EventView::Bound(*bound),
            Event::Associated(begun) => EventView::Associated(*begun),
            Event::Elapsed => EventView::Elapsed,
            Event::Chosen(index) => EventView::Chosen(*index),
            Event::Text(text) => EventView::Text(
                match text {
                    Some(entered) => Some(entered@),
                    None => None,
                },
            ),
            Event::Trusted(trusted) => EventView::Trusted(*trusted),
            Event::Account(account) => EventView::Account(
                match account {
                    Some(record) => Some(record@),
                    None => None,
                },
            ),
            Event::Stored(stored) => EventView::Stored(*stored),
            Event::Linked(result) => EventView::Linked(
                match result {
                    Ok(linked) => Ok(*linked),
                    Err(words) => Err(words@),
                },
            ),
        }
    }
}

/// What follows a step.
#[derive(Debug, PartialEq, Eq)]
pub enum Next {
    /// Perform the request and come back with its answer.
    Ask(Request),
    /// The operation is over.
    Done(Outcome),
    /// No operation is under way.
    Idle,
}

/// The mathematical value of a [`Next`].
pub enum NextView {
    Ask(RequestView),
    Done(OutcomeView),
    Idle,
}

impl View for Next {
    type V = NextView;

    open spec fn view(&self) -> NextView {
        match self {
            Next::Ask(request) => NextView::Ask(request@),
            Next::Done(outcome) => NextView::Done(outcome@),
            Next::Idle => NextView::Idle,
        }
    }
}

/// One decision of the library: the signals to show, in order, and then
/// what follows.
#[derive(Debug, PartialEq, Eq)]
pub struct Step {
    pub effects: Vec<Effect>,
    pub next: Next,
}

/// The mathematical value of a [`Step`].
pub struct StepView {
    pub effects: Seq<EffectView>,
    pub next: NextView,
}

impl View for Step {
    type V = StepView;

    open spec fn view(&self) -> StepView {
        StepView { effects: effects_view(self.effects@), next: self.next@ }
    }
}

} // verus!
