//! The session as a state machine over mathematical values: what each
//! operation decides, given the state and the event that came in.
//!
//! Every function here maps a state to the state after the decision and the
//! step that announces it. The `effects` that a function takes are the
//! signals already due; it adds its own behind them.

use crate::account::{AccountView, ConfigView, ManagerView, ServiceEnvironment, TrustMode};
use crate::host::{domain_of, host_parse, DEFAULT_HOST};
use crate::outcome::{ConnectError, Failure, NumberError, OutcomeView, SetupOutcomeView};
use crate::protocol::{
    options, Choice, EffectView, EventView, Field, Menu, NextView, NoticeView, RequestView,
    Selection, Status, StepView, DEFAULT_DEVICE_NAME,
};
use vstd::prelude::*;

verus! {

/// How many seconds the network gate waits for an address before it asks
/// the operator again.
pub const WIFI_TIMEOUT: u32 = 10;

/// The length of one tick of the network wait.
pub const TICK_MILLIS: u32 = 1000;

/// The environment that setup creates accounts in.
pub open spec fn setup_environment() -> ServiceEnvironment {
    ServiceEnvironment::Staging
}

/// The operation that is under way.
#[derive(Clone, Copy, Debug, PartialEq, Eq)]
pub enum Goal {
    /// The network gate alone.
    Network,
    /// Account setup alone.
    Setup,
    /// A connect cycle: the network, then an account, then the session.
    Connect,
}

/// The two ways to an account.
#[derive(Clone, Copy, Debug, PartialEq, Eq)]
pub enum Flow {
    Link,
    Register,
}

/// Where an operation stands: the request that is out, with what its
/// answer will be needed for.
pub enum PhaseView {
    /// Nothing is under way.
    Idle,
    /// The first, unprompted look at the network.
    WifiChecking { timeout: u32 },
    /// The operator is asked whether to connect.
    WifiAsking { timeout: u32 },
    /// The network layer is told to associate.
    WifiAssociating { timeout: u32 },
    /// Tick number `wait` of the wait is running.
    WifiSleeping { timeout: u32, wait: u32 },
    /// The look at the network after tick number `wait`.
    WifiPolling { timeout: u32, wait: u32 },
    /// The stored account is being read.
    Reading,
    /// The operator chooses between linking, registering and neither.
    Choosing,
    /// The operator names the host.
    HostPrompt { flow: Flow },
    /// The host's certificate chain is being probed.
    Probing { flow: Flow, config: ConfigView },
    /// Linking: the record is being created.
    LinkCreating,
    /// Linking: the operator names the device.
    LinkNaming { account: AccountView },
    /// Linking: the account manager is at work.
    Linking,
    /// Linking: the linked record is being read back.
    LinkReading,
    /// Linking broke off: the record is being deleted.
    LinkRollback { message: Seq<char> },
    /// Registering: the operator enters the phone number.
    RegisterNumber { config: ConfigView },
    /// Registering: the record is being created.
    RegisterCreating { number: Seq<char> },
    /// Registering: the number is being set in the record.
    RegisterNumbering,
}

/// The mathematical value of a session.
pub struct SigChatView {
    /// Whether the process runs in simulated, hosted mode.
    pub hosted: bool,
    /// What the live account manager was built from, if there is one.
    pub manager: Option<ManagerView>,
    pub goal: Goal,
    pub phase: PhaseView,
}

// ---------------------------------------------------------------------
// The states that operations lead to.
// ---------------------------------------------------------------------
/// Whether the network gate is under way.
pub open spec fn in_gate(phase: PhaseView) -> bool {
    phase is WifiChecking || phase is WifiAsking || phase is WifiAssociating
        || phase is WifiSleeping || phase is WifiPolling
}

/// Whether the session waits for an address, with ticks still to go.
pub open spec fn in_wait(phase: PhaseView) -> bool {
    match phase {
        PhaseView::WifiSleeping { timeout, wait } => wait < timeout,
        PhaseView::WifiPolling { timeout, wait } => wait < timeout,
        _ => false,
    }
}

/// Whether setup is under way, past the choice of a flow or at it.
pub open spec fn in_setup(phase: PhaseView) -> bool {
    !in_gate(phase) && !(phase is Idle) && !(phase is Reading)
}

/// What holds of a session in every state that operations lead to: the
/// wait has ticks to go while it sleeps or polls, the network is settled
/// for a cycle or for its own sake, the store is read and setup is run in
/// a cycle only for want of a manager.
pub open spec fn consistent(s: SigChatView) -> bool {
    &&& in_gate(s.phase) ==> s.goal != Goal::Setup
    &&& s.phase is WifiSleeping || s.phase is WifiPolling ==> in_wait(s.phase)
    &&& s.phase is Reading ==> s.goal == Goal::Connect && s.manager is None
    &&& in_setup(s.phase) ==> s.goal != Goal::Network
    &&& in_setup(s.phase) && s.goal == Goal::Connect ==> s.manager is None
}

/// No signals.
pub open spec fn quiet() -> Seq<EffectView> {
    Seq::empty()
}

/// Moves to `phase` and asks for `request`.
pub open spec fn ask(
    s: SigChatView,
    effects: Seq<EffectView>,
    phase: PhaseView,
    request: RequestView,
) -> (SigChatView, StepView) {
    (SigChatView { phase, ..s }, StepView { effects, next: NextView::Ask(request) })
}

/// Ends the operation with `outcome`.
pub open spec fn done(s: SigChatView, effects: Seq<EffectView>, outcome: OutcomeView) -> (
    SigChatView,
    StepView,
) {
    (
        SigChatView { phase: PhaseView::Idle, ..s },
        StepView { effects, next: NextView::Done(outcome) },
    )
}

// ---------------------------------------------------------------------
// What an event says, read as the answer to the request that is out.
// ---------------------------------------------------------------------
/// What the operator selected from `menu`.
pub open spec fn selection(menu: Menu, event: EventView) -> Selection {
    match event {
        EventView::Chosen(Some(index)) => if index < options(menu).len() {
            Selection::Picked(options(menu)[index as int])
        } else {
            Selection::OutOfRange
        },
        _ => Selection::Failed,
    }
}

/// The text that the operator entered, if the prompt came back with one.
pub open spec fn entered(event: EventView) -> Option<Seq<char>> {
    match event {
        EventView::Text(text) => text,
        _ => None,
    }
}

/// The record that the store handed over, if it did.
pub open spec fn record(event: EventView) -> Option<AccountView> {
    match event {
        EventView::Account(account) => account,
        _ => None,
    }
}

/// How linking ended. An answer of another kind is an error without words.
pub open spec fn linked(event: EventView) -> Result<bool, Seq<char>> {
    match event {
        EventView::Linked(result) => result,
        _ => Err(Seq::empty()),
    }
}

/// Whether the operator wants the network brought up: the answer "yes",
/// and nothing else.
pub open spec fn wifi_try_modal(event: EventView) -> bool {
    selection(Menu::ConnectWifi, event) == Selection::Picked(Choice::Yes)
}

/// The host that the prompt settles on, if it settles: the domain that the
/// entered text parses to or, where the prompt failed, the domain that the
/// built-in host parses to.
pub open spec fn host_modal(event: EventView) -> Option<Seq<char>> {
    match entered(event) {
        Some(text) => domain_of(host_parse(text)),
        None => domain_of(host_parse(DEFAULT_HOST@)),
    }
}

/// The device name: the text entered, or the built-in name if the prompt
/// failed.
pub open spec fn name_modal(event: EventView) -> Seq<char> {
    match entered(event) {
        Some(text) => text,
        None => DEFAULT_DEVICE_NAME@,
    }
}

/// The phone number: the text entered, which must not be empty.
pub open spec fn number_modal(event: EventView) -> Result<Seq<char>, NumberError> {
    match entered(event) {
        Some(text) => if text.len() > 0 {
            Ok(text)
        } else {
            Err(NumberError::Empty)
        },
        None => Err(NumberError::PromptFailed),
    }
}

// ---------------------------------------------------------------------
// The network gate.
// ---------------------------------------------------------------------
/// Asks for the network. In hosted mode the network counts as usable and
/// nothing is asked or polled.
pub open spec fn wifi_begin(s: SigChatView, effects: Seq<EffectView>, timeout: u32) -> (
    SigChatView,
    StepView,
) {
    if s.hosted {
        wifi_end(s, effects, true)
    } else {
        ask(s, effects, PhaseView::WifiChecking { timeout }, RequestView::NetworkStatus)
    }
}

/// Ends the network wait with its verdict.
pub open spec fn wifi_end(s: SigChatView, effects: Seq<EffectView>, up: bool) -> (
    SigChatView,
    StepView,
) {
    match s.goal {
        Goal::Connect => connect_network(s, effects, up),
        _ => done(s, effects, OutcomeView::Network(up)),
    }
}

/// Asks the operator whether to connect.
pub open spec fn wifi_prompt(s: SigChatView, effects: Seq<EffectView>, timeout: u32) -> (
    SigChatView,
    StepView,
) {
    ask(s, effects, PhaseView::WifiAsking { timeout }, RequestView::Choose(Menu::ConnectWifi))
}

/// After `wait` ticks without an address: one more tick while the timeout
/// allows it, then back to the operator.
pub open spec fn wifi_wait(s: SigChatView, effects: Seq<EffectView>, timeout: u32, wait: int) -> (
    SigChatView,
    StepView,
) {
    if wait < timeout {
        ask(
            s,
            effects,
            PhaseView::WifiSleeping { timeout, wait: wait as u32 },
            RequestView::Sleep { millis: TICK_MILLIS },
        )
    } else {
        wifi_prompt(s, effects.push(EffectView::ProgressFinish), timeout)
    }
}

/// The decision of the network wait on an event.
pub open spec fn wifi_event(s: SigChatView, event: EventView) -> (SigChatView, StepView) {
    match s.phase {
        PhaseView::WifiChecking { timeout } => if event == EventView::Bound(true) {
            wifi_end(s, quiet(), true)
        } else {
            wifi_prompt(s, quiet(), timeout)
        },
        PhaseView::WifiAsking { timeout } => if wifi_try_modal(event) {
            ask(s, quiet(), PhaseView::WifiAssociating { timeout }, RequestView::Associate)
        } else {
            wifi_end(s, quiet(), false)
        },
        PhaseView::WifiAssociating { timeout } => if event == EventView::Associated(true) {
            wifi_wait(
                s,
                quiet().push(EffectView::ProgressStart { first: 0, last: timeout, current: 0 }),
                timeout,
                0,
            )
        } else {
            wifi_prompt(s, quiet(), timeout)
        },
        PhaseView::WifiSleeping { timeout, wait } => ask(
            s,
            quiet().push(EffectView::ProgressUpdate(wait)),
            PhaseView::WifiPolling { timeout, wait },
            RequestView::NetworkStatus,
        ),
        PhaseView::WifiPolling { timeout, wait } => if event == EventView::Bound(true) {
            wifi_end(s, quiet().push(EffectView::ProgressFinish), true)
        } else {
            wifi_wait(s, quiet(), timeout, wait + 1)
        },
        _ => idle(s),
    }
}

// ---------------------------------------------------------------------
// The connect cycle.
// ---------------------------------------------------------------------
/// The cycle once the network is settled. Without a network it ends, and that is no
/// error. With a live manager nothing is read and nobody is asked.
pub open spec fn connect_network(s: SigChatView, effects: Seq<EffectView>, up: bool) -> (
    SigChatView,
    StepView,
) {
    if !up {
        done(
            s,
            effects.push(EffectView::Notify(NoticeView::NoNetwork)),
            OutcomeView::Connect(Ok(false)),
        )
    } else if s.manager is Some {
        connect_end(s, effects)
    } else {
        ask(s, effects, PhaseView::Reading, RequestView::ReadAccount)
    }
}

/// The manager that a session gets for `account`.
pub open spec fn manager_for(account: AccountView) -> ManagerView {
    ManagerView { account, trust_mode: TrustMode::OnFirstUse }
}

/// The signals that bracket the making of a manager.
pub open spec fn install(effects: Seq<EffectView>, account: AccountView) -> Seq<EffectView> {
    effects.push(EffectView::Status(Status::Connecting)).push(EffectView::Busy(true)).push(
        EffectView::Install(manager_for(account)),
    ).push(EffectView::Busy(false))
}

/// The cycle once it has an account: the manager is replaced as a whole.
pub open spec fn connect_account(s: SigChatView, effects: Seq<EffectView>, account: AccountView)
    -> (SigChatView, StepView) {
    connect_end(
        SigChatView { manager: Some(manager_for(account)), ..s },
        install(effects, account),
    )
}

/// The end of the cycle: online with a manager, offline without.
pub open spec fn connect_end(s: SigChatView, effects: Seq<EffectView>) -> (SigChatView, StepView) {
    if s.manager is Some {
        done(
            s,
            effects.push(EffectView::Status(Status::Online)),
            OutcomeView::Connect(Ok(true)),
        )
    } else {
        done(
            s,
            effects.push(EffectView::Status(Status::Offline)),
            OutcomeView::Connect(Ok(false)),
        )
    }
}

/// The cycle's decision on what the store read: a stored account makes
/// the session, none starts setup.
pub open spec fn connect_read(s: SigChatView, event: EventView) -> (SigChatView, StepView) {
    match record(event) {
        Some(account) => connect_account(s, quiet(), account),
        None => setup_begin(s, quiet()),
    }
}

// ---------------------------------------------------------------------
// Account setup.
// ---------------------------------------------------------------------
/// Enters setup: the three-way choice.
pub open spec fn setup_begin(s: SigChatView, effects: Seq<EffectView>) -> (SigChatView, StepView) {
    ask(s, effects, PhaseView::Choosing, RequestView::Choose(Menu::AccountSetup))
}

/// Leaves setup. A connect cycle goes on with the account or reports why
/// there is none; setup run for its own sake reports its outcome.
pub open spec fn setup_end(s: SigChatView, effects: Seq<EffectView>, outcome: SetupOutcomeView)
    -> (SigChatView, StepView) {
    match s.goal {
        Goal::Connect => match outcome {
            SetupOutcomeView::Succeeded(account) => connect_account(s, effects, account),
            SetupOutcomeView::Aborted => done(
                s,
                effects,
                OutcomeView::Connect(Err(ConnectError::SetupAborted)),
            ),
            SetupOutcomeView::Failed(failure) => done(
                s,
                effects,
                OutcomeView::Connect(Err(ConnectError::SetupFailed(failure))),
            ),
        },
        _ => done(s, effects, OutcomeView::Setup(outcome)),
    }
}

/// Setup's decision on the operator's choice.
pub open spec fn setup_chosen(s: SigChatView, event: EventView) -> (SigChatView, StepView) {
    match selection(Menu::AccountSetup, event) {
        Selection::Picked(Choice::Link) => host_prompt(s, quiet(), Flow::Link),
        Selection::Picked(Choice::Register) => host_prompt(s, quiet(), Flow::Register),
        Selection::Picked(Choice::Offline) => setup_end(s, quiet(), SetupOutcomeView::Aborted),
        Selection::Picked(_) => setup_end(
            s,
            quiet(),
            SetupOutcomeView::Failed(Failure::InvalidChoice),
        ),
        Selection::OutOfRange => setup_end(
            s,
            quiet(),
            SetupOutcomeView::Failed(Failure::InvalidChoice),
        ),
        Selection::Failed => setup_end(s, quiet(), SetupOutcomeView::Failed(Failure::PromptFailed)),
    }
}

/// Asks the operator for the host.
pub open spec fn host_prompt(s: SigChatView, effects: Seq<EffectView>, flow: Flow) -> (
    SigChatView,
    StepView,
) {
    ask(s, effects, PhaseView::HostPrompt { flow }, RequestView::Prompt(Field::Host))
}

/// Setup's decision on the host entered: a domain goes to the probe; any
/// other text is refused, with a notice, and asked for again; a failed
/// prompt falls back on the built-in host.
pub open spec fn host_entered(s: SigChatView, flow: Flow, event: EventView) -> (
    SigChatView,
    StepView,
) {
    match host_modal(event) {
        Some(host) => probe_host(
            s,
            quiet(),
            flow,
            ConfigView { host, service_environment: setup_environment() },
        ),
        None => if entered(event) is Some {
            host_prompt(s, quiet().push(EffectView::Notify(NoticeView::InvalidHost)), flow)
        } else {
            host_prompt(s, quiet(), flow)
        },
    }
}

/// Sends the probe of the host's certificate chain.
pub open spec fn probe_host(
    s: SigChatView,
    effects: Seq<EffectView>,
    flow: Flow,
    config: ConfigView,
) -> (SigChatView, StepView) {
    ask(
        s,
        effects.push(EffectView::Status(Status::Probing)).push(EffectView::Busy(true)),
        PhaseView::Probing { flow, config },
        RequestView::Probe { host: config.host, accept_first_use: true },
    )
}

/// Setup's decision on the probe: only a trusted host goes on to a flow.
pub open spec fn host_probed(s: SigChatView, flow: Flow, config: ConfigView, event: EventView) -> (
    SigChatView,
    StepView,
) {
    if event == EventView::Trusted(true) {
        match flow {
            Flow::Link => link_create(s, quiet().push(EffectView::Busy(false)), config),
            Flow::Register => register_prompt(s, quiet().push(EffectView::Busy(false)), config),
        }
    } else {
        setup_end(
            s,
            quiet().push(EffectView::Notify(NoticeView::SetupAborted)).push(
                EffectView::Busy(false),
            ),
            SetupOutcomeView::Failed(Failure::UntrustedHost),
        )
    }
}

// ---------------------------------------------------------------------
// Linking.
// ---------------------------------------------------------------------
/// Linking begins: the record is created.
pub open spec fn link_create(s: SigChatView, effects: Seq<EffectView>, config: ConfigView) -> (
    SigChatView,
    StepView,
) {
    ask(
        s,
        effects.push(EffectView::Status(Status::Initializing)).push(EffectView::Busy(true)),
        PhaseView::LinkCreating,
        RequestView::CreateAccount { host: config.host, environment: config.service_environment },
    )
}

/// The linking flow's decision on an event.
pub open spec fn link_event(s: SigChatView, event: EventView) -> (SigChatView, StepView) {
    match s.phase {
        PhaseView::LinkCreating => match record(event) {
            Some(account) => ask(
                s,
                quiet(),
                PhaseView::LinkNaming { account },
                RequestView::Prompt(Field::DeviceName),
            ),
            None => setup_end(
                s,
                quiet().push(EffectView::Busy(false)).push(
                    EffectView::Notify(NoticeView::AccountFailed),
                ),
                SetupOutcomeView::Failed(Failure::CreateFailed),
            ),
        },
        PhaseView::LinkNaming { account } => ask(
            s,
            quiet().push(EffectView::Status(Status::Connecting)).push(EffectView::Busy(true)),
            PhaseView::Linking,
            RequestView::Link {
                account,
                trust_mode: TrustMode::OnFirstUse,
                device_name: name_modal(event),
            },
        ),
        PhaseView::Linking => match linked(event) {
            Ok(true) => ask(
                s,
                quiet().push(EffectView::Busy(false)),
                PhaseView::LinkReading,
                RequestView::ReadAccount,
            ),
            Ok(false) => setup_end(
                s,
                quiet().push(EffectView::Busy(false)),
                SetupOutcomeView::Failed(Failure::LinkDeclined),
            ),
            Err(message) => ask(
                s,
                quiet(),
                PhaseView::LinkRollback { message },
                RequestView::DeleteAccount,
            ),
        },
        PhaseView::LinkReading => match record(event) {
            Some(account) => setup_end(s, quiet(), SetupOutcomeView::Succeeded(account)),
            None => setup_end(s, quiet(), SetupOutcomeView::Failed(Failure::ReadFailed)),
        },
        PhaseView::LinkRollback { message } => setup_end(
            s,
            quiet().push(EffectView::Busy(false)).push(
                EffectView::Notify(NoticeView::Message(message)),
            ),
            SetupOutcomeView::Failed(Failure::LinkFailed),
        ),
        _ => idle(s),
    }
}

// ---------------------------------------------------------------------
// Registering.
// ---------------------------------------------------------------------
/// Registering begins: the operator is told that it leads nowhere yet, and
/// asked for the phone number all the same.
pub open spec fn register_prompt(s: SigChatView, effects: Seq<EffectView>, config: ConfigView) -> (
    SigChatView,
    StepView,
) {
    ask(
        s,
        effects.push(EffectView::Notify(NoticeView::RegistrationUnavailable)),
        PhaseView::RegisterNumber { config },
        RequestView::Prompt(Field::PhoneNumber),
    )
}

/// How registering ends, whatever went before.
pub open spec fn register_end(s: SigChatView, effects: Seq<EffectView>) -> (SigChatView, StepView) {
    setup_end(s, effects, SetupOutcomeView::Failed(Failure::NotImplemented))
}

/// The registering flow's decision on an event. The flow gives no
/// account: the manager stays as it was, whatever the store achieved.
pub open spec fn register_event(s: SigChatView, event: EventView) -> (SigChatView, StepView) {
    match s.phase {
        PhaseView::RegisterNumber { config } => match number_modal(event) {
            Ok(number) => ask(
                s,
                quiet(),
                PhaseView::RegisterCreating { number },
                RequestView::CreateAccount {
                    host: config.host,
                    environment: config.service_environment,
                },
            ),
            Err(_) => register_end(s, quiet()),
        },
        PhaseView::RegisterCreating { number } => match record(event) {
            Some(_) => ask(
                s,
                quiet(),
                PhaseView::RegisterNumbering,
                RequestView::SetNumber { number },
            ),
            None => register_end(s, quiet()),
        },
        PhaseView::RegisterNumbering => register_end(s, quiet()),
        _ => idle(s),
    }
}

// ---------------------------------------------------------------------
// The operations, and the one way on.
// ---------------------------------------------------------------------
/// With nothing under way an event changes nothing.
pub open spec fn idle(s: SigChatView) -> (SigChatView, StepView) {
    (s, StepView { effects: quiet(), next: NextView::Idle })
}

/// The session at start: idle, with a manager if an account was stored.
pub open spec fn new(stored: Option<AccountView>, hosted: bool) -> SigChatView {
    SigChatView {
        hosted,
        manager: match stored {
            Some(account) => Some(manager_for(account)),
            None => None,
        },
        goal: Goal::Connect,
        phase: PhaseView::Idle,
    }
}

/// Begins a connect cycle.
pub open spec fn connect(s: SigChatView) -> (SigChatView, StepView) {
    wifi_begin(SigChatView { goal: Goal::Connect, ..s }, quiet(), WIFI_TIMEOUT)
}

/// Begins the network gate with a wait of `timeout` seconds.
pub open spec fn ensure_network(s: SigChatView, timeout: u32) -> (SigChatView, StepView) {
    wifi_begin(SigChatView { goal: Goal::Network, ..s }, quiet(), timeout)
}

/// Begins account setup.
pub open spec fn account_setup(s: SigChatView) -> (SigChatView, StepView) {
    setup_begin(SigChatView { goal: Goal::Setup, ..s }, quiet())
}

/// Begins linking to the host of `config`: with the probe, as every way to
/// an account does.
pub open spec fn account_link(s: SigChatView, config: ConfigView) -> (SigChatView, StepView) {
    probe_host(SigChatView { goal: Goal::Setup, ..s }, quiet(), Flow::Link, config)
}

/// Begins registering with the host of `config`: with the probe, as every
/// way to an account does.
pub open spec fn account_register(s: SigChatView, config: ConfigView) -> (SigChatView, StepView) {
    probe_host(SigChatView { goal: Goal::Setup, ..s }, quiet(), Flow::Register, config)
}

/// The decision on the event that answers the request that is out.
pub open spec fn advance(s: SigChatView, event: EventView) -> (SigChatView, StepView) {
    match s.phase {
        PhaseView::Idle => idle(s),
        PhaseView::WifiChecking { .. }
        | PhaseView::WifiAsking { .. }
        | PhaseView::WifiAssociating { .. }
        | PhaseView::WifiSleeping { .. }
        | PhaseView::WifiPolling { .. } => wifi_event(s, event),
        PhaseView::Reading => connect_read(s, event),
        PhaseView::Choosing => setup_chosen(s, event),
        PhaseView::HostPrompt { flow } => host_entered(s, flow, event),
        PhaseView::Probing { flow, config } => host_probed(s, flow, config, event),
        PhaseView::LinkCreating
        | PhaseView::LinkNaming { .. }
        | PhaseView::Linking
        | PhaseView::LinkReading
        | PhaseView::LinkRollback { .. } => link_event(s, event),
        PhaseView::RegisterNumber { .. }
        | PhaseView::RegisterCreating { .. }
        | PhaseView::RegisterNumbering => register_event(s, event),
    }
}

} // verus!
