//! The session orchestrator: one optional live account manager, and the
//! operations that take a device from no network and no account to a
//! session that is ready for use.
//!
//! An operation is begun by `connect`, `wifi`, `ensure_network`,
//! `account_setup`, `account_link` or `account_register`, and carried on by
//! `advance`, once for each event, until a step says that it is done.

use crate::account::{Account, Config, Manager, ServiceEnvironment, TrustMode};
use crate::host::{HostEndpoint, DEFAULT_HOST};
use crate::model;
use crate::model::{Flow, Goal, PhaseView, SigChatView, TICK_MILLIS, WIFI_TIMEOUT};
use crate::outcome::{
    ConnectError, Failure, NumberError, Outcome, OutcomeView, SetupOutcome,
};
use crate::protocol::{
    effects_view, Choice, Effect, EffectView, Event, Field, Menu, Next, NextView, Notice,
    Request,
    Selection, Status, Step, DEFAULT_DEVICE_NAME,
};
use vstd::prelude::*;

verus! {

/// Where an operation stands. See [`PhaseView`] for the phases.
#[derive(Debug, PartialEq, Eq)]
enum Phase {
    Idle,
    WifiChecking { timeout: u32 },
    WifiAsking { timeout: u32 },
    WifiAssociating { timeout: u32 },
    WifiSleeping { timeout: u32, wait: u32 },
    WifiPolling { timeout: u32, wait: u32 },
    Reading,
    Choosing,
    HostPrompt { flow: Flow },
    Probing { flow: Flow, config: Config },
    LinkCreating,
    LinkNaming { account: Account },
    Linking,
    LinkReading,
    LinkRollback { message: String },
    RegisterNumber { config: Config },
    RegisterCreating { number: String },
    RegisterNumbering,
}

impl View for Phase {
    type V = PhaseView;

    closed spec fn view(&self) -> PhaseView {
        match self {
            Phase::Idle => PhaseView::Idle,
            Phase::WifiChecking { timeout } => PhaseView::WifiChecking { timeout: *timeout },
            Phase::WifiAsking { timeout } => PhaseView::WifiAsking { timeout: *timeout },
            Phase::WifiAssociating { timeout } => PhaseView::WifiAssociating { timeout: *timeout },
            Phase::WifiSleeping { timeout, wait } => PhaseView::WifiSleeping {
                timeout: *timeout,
                wait: *wait,
            },
            Phase::WifiPolling { timeout, wait } => PhaseView::WifiPolling {
                timeout: *timeout,
                wait: *wait,
            },
            Phase::Reading => PhaseView::Reading,
            Phase::Choosing => PhaseView::Choosing,
            Phase::HostPrompt { flow } => PhaseView::HostPrompt { flow: *flow },
            Phase::Probing { flow, config } => PhaseView::Probing { flow: *flow, config: config@ },
            Phase::LinkCreating => PhaseView::LinkCreating,
            Phase::LinkNaming { account } => PhaseView::LinkNaming { account: account@ },
            Phase::Linking => PhaseView::Linking,
            Phase::LinkReading => PhaseView::LinkReading,
            Phase::LinkRollback { message } => PhaseView::LinkRollback { message: message@ },
            Phase::RegisterNumber { config } => PhaseView::RegisterNumber { config: config@ },
            Phase::RegisterCreating { number } => PhaseView::RegisterCreating { number: number@ },
            Phase::RegisterNumbering => PhaseView::RegisterNumbering,
        }
    }
}

/// The session orchestrator.
#[derive(Debug, PartialEq, Eq)]
pub struct SigChat {
    hosted: bool,
    manager: Option<Manager>,
    goal: Goal,
    phase: Phase,
}

impl View for SigChat {
    type V = SigChatView;

    closed spec fn view(&self) -> SigChatView {
        SigChatView {
            hosted: self.hosted,
            manager: match self.manager {
                Some(manager) => Some(manager@),
                None => None,
            },
            goal: self.goal,
            phase: self.phase@,
        }
    }
}

/// No signals yet.
fn quiet() -> (effects: Vec<Effect>)
    ensures
        effects_view(effects@) == model::quiet(),
{
    let effects: Vec<Effect> = Vec::new();
    assert(effects_view(effects@) =~= model::quiet());
    effects
}

/// Puts `effect` behind the signals that are due.
fn emit(effects: &mut Vec<Effect>, effect: Effect)
    ensures
        effects_view(final(effects)@) == effects_view(old(effects)@).push(effect@),
{
    effects.push(effect);
    assert(effects_view(effects@) =~= effects_view(old(effects)@).push(effect@));
}

impl SigChat {
    /// The session at start. `stored` is the account that the store holds,
    /// if it holds one: the manager is built from it at once.
    pub fn new(stored: Option<Account>, hosted: bool) -> (session: SigChat)
        ensures
            session@ == model::new(
                match stored {
                    Some(account) => Some(account@),
                    None => None,
                },
                hosted,
            ),
            model::consistent(session@),
    {
        SigChat {
            hosted,
            manager: match stored {
                Some(account) => Some(Manager::new(account, TrustMode::OnFirstUse)),
                None => None,
            },
            goal: Goal::Connect,
            phase: Phase::Idle,
        }
    }

    /// Whether no operation is under way.
    pub fn is_idle(&self) -> (idle: bool)
        ensures
            idle == (self@.phase is Idle),
    {
        match &self.phase {
            Phase::Idle => true,
            _ => false,
        }
    }

    /// Whether the process runs in simulated, hosted mode.
    pub fn hosted(&self) -> (hosted: bool)
        ensures
            hosted == self@.hosted,
    {
        self.hosted
    }

    /// What the live account manager was built from, if there is one.
    pub fn manager(&self) -> (manager: Option<&Manager>)
        ensures
            match self@.manager {
                Some(live) => manager matches Some(found) && found@ == live,
                None => manager is None,
            },
    {
        match &self.manager {
            Some(manager) => Some(manager),
            None => None,
        }
    }

    fn ask(&mut self, effects: Vec<Effect>, phase: Phase, request: Request) -> (step: Step)
        ensures
            (final(self)@, step@) == model::ask(
                old(self)@,
                effects_view(effects@),
                phase@,
                request@,
            ),
    {
        self.phase = phase;
        Step { effects, next: Next::Ask(request) }
    }

    fn done(&mut self, effects: Vec<Effect>, outcome: Outcome) -> (step: Step)
        ensures
            (final(self)@, step@) == model::done(old(self)@, effects_view(effects@), outcome@),
    {
        self.phase = Phase::Idle;
        Step { effects, next: Next::Done(outcome) }
    }
}

// ---------------------------------------------------------------------
// What an event says, read as the answer to the request that is out.
// ---------------------------------------------------------------------
impl SigChat {
    /// What the operator selected from `menu`.
    pub fn selection(menu: Menu, event: &Event) -> (selection: Selection)
        ensures
            selection == model::selection(menu, event@),
    {
        match event {
            Event::Chosen(Some(index)) => {
                let lines = menu.options();
                let line: usize = *index as usize;
                if line < lines.len() {
                    Selection::Picked(lines[line])
                } else {
                    Selection::OutOfRange
                }
            },
            _ => Selection::Failed,
        }
    }

    /// Whether the operator wants the network brought up.
    pub fn wifi_try_modal(event: &Event) -> (yes: bool)
        ensures
            yes == model::wifi_try_modal(event@),
    {
        match Self::selection(Menu::ConnectWifi, event) {
            Selection::Picked(Choice::Yes) => true,
            _ => false,
        }
    }

    /// The host that the prompt settles on, if it settles.
    pub fn host_modal(event: &Event) -> (host: Option<HostEndpoint>)
        ensures
            match model::host_modal(event@) {
                Some(name) => host matches Some(found) && found@ == name,
                None => host is None,
            },
    {
        match event {
            Event::Text(Some(text)) => HostEndpoint::parse(text.as_str()),
            _ => HostEndpoint::parse(DEFAULT_HOST),
        }
    }

    /// The device name: the text entered, or the built-in name.
    pub fn name_modal(event: Event) -> (name: String)
        ensures
            name@ == model::name_modal(event@),
    {
        match event {
            Event::Text(Some(text)) => text,
            _ => DEFAULT_DEVICE_NAME.to_owned(),
        }
    }

    /// The phone number: the text entered, which must not be empty.
    pub fn number_modal(event: Event) -> (number: Result<String, NumberError>)
        ensures
            match model::number_modal(event@) {
                Ok(digits) => number matches Ok(found) && found@ == digits,
                Err(error) => number == Err::<String, NumberError>(error),
            },
    {
        match event {
            Event::Text(Some(text)) => if text.as_str().is_empty() {
                Err(NumberError::Empty)
            } else {
                Ok(text)
            },
            _ => Err(NumberError::PromptFailed),
        }
    }

    /// The record that the store handed over, if it did.
    fn record(event: Event) -> (account: Option<Account>)
        ensures
            match model::record(event@) {
                Some(record) => account matches Some(found) && found@ == record,
                None => account is None,
            },
    {
        match event {
            Event::Account(account) => account,
            _ => None,
        }
    }

    /// How linking ended.
    fn linked(event: Event) -> (result: Result<bool, String>)
        ensures
            match model::linked(event@) {
                Ok(linked) => result == Ok::<bool, String>(linked),
                Err(message) => result matches Err(words) && words@ == message,
            },
    {
        match event {
            Event::Linked(result) => result,
            _ => Err(String::new()),
        }
    }
}

// ---------------------------------------------------------------------
// The network gate.
// ---------------------------------------------------------------------
impl SigChat {
    /// Begins the network gate with the built-in timeout.
    pub fn wifi(&mut self) -> (step: Step)
        requires
            old(self)@.phase is Idle,
        ensures
            (final(self)@, step@) == model::ensure_network(old(self)@, WIFI_TIMEOUT),
            model::consistent(final(self)@),
            old(self)@.hosted ==> step@.effects == model::quiet() && step@.next == NextView::Done(
                OutcomeView::Network(true),
            ),
    {
        self.ensure_network(WIFI_TIMEOUT)
    }

    /// Begins the network gate: is the network usable, and if it is not,
    /// does the operator want it brought up, with a wait of at most
    /// `timeout_seconds` ticks before the operator is asked again.
    ///
    /// In hosted mode the step is already the end: the network counts as
    /// usable, and nothing is shown, asked or polled.
    pub fn ensure_network(&mut self, timeout_seconds: u32) -> (step: Step)
        requires
            old(self)@.phase is Idle,
        ensures
            (final(self)@, step@) == model::ensure_network(old(self)@, timeout_seconds),
            model::consistent(final(self)@),
            old(self)@.hosted ==> step@.effects == model::quiet() && step@.next == NextView::Done(
                OutcomeView::Network(true),
            ),
    {
        self.goal = Goal::Network;
        self.wifi_begin(quiet(), timeout_seconds)
    }

    fn wifi_begin(&mut self, effects: Vec<Effect>, timeout: u32) -> (step: Step)
        ensures
            (final(self)@, step@) == model::wifi_begin(
                old(self)@,
                effects_view(effects@),
                timeout,
            ),
    {
        if self.hosted {
            self.wifi_end(effects, true)
        } else {
            self.ask(effects, Phase::WifiChecking { timeout }, Request::NetworkStatus)
        }
    }

    fn wifi_end(&mut self, effects: Vec<Effect>, up: bool) -> (step: Step)
        ensures
            (final(self)@, step@) == model::wifi_end(old(self)@, effects_view(effects@), up),
    {
        match self.goal {
            Goal::Connect => self.connect_network(effects, up),
            _ => self.done(effects, Outcome::Network(up)),
        }
    }

    fn wifi_prompt(&mut self, effects: Vec<Effect>, timeout: u32) -> (step: Step)
        ensures
            (final(self)@, step@) == model::wifi_prompt(
                old(self)@,
                effects_view(effects@),
                timeout,
            ),
    {
        self.ask(effects, Phase::WifiAsking { timeout }, Request::Choose(Menu::ConnectWifi))
    }

    fn wifi_wait(&mut self, effects: Vec<Effect>, timeout: u32, wait: u64) -> (step: Step)
        ensures
            (final(self)@, step@) == model::wifi_wait(
                old(self)@,
                effects_view(effects@),
                timeout,
                wait as int,
            ),
    {
        if wait < timeout as u64 {
            self.ask(
                effects,
                Phase::WifiSleeping { timeout, wait: wait as u32 },
                Request::Sleep { millis: TICK_MILLIS },
            )
        } else {
            let mut effects = effects;
            emit(&mut effects, Effect::ProgressFinish);
            self.wifi_prompt(effects, timeout)
        }
    }

    /// The decision of the network wait on an event that came in `phase`.
    fn wifi_event(&mut self, phase: Phase, event: Event) -> (step: Step)
        ensures
            (final(self)@, step@) == model::wifi_event(
                SigChatView { phase: phase@, ..old(self)@ },
                event@,
            ),
    {
        match phase {
            Phase::WifiChecking { timeout } => match event {
                Event::Bound(true) => self.wifi_end(quiet(), true),
                _ => self.wifi_prompt(quiet(), timeout),
            },
            Phase::WifiAsking { timeout } => if Self::wifi_try_modal(&event) {
                self.ask(quiet(), Phase::WifiAssociating { timeout }, Request::Associate)
            } else {
                self.wifi_end(quiet(), false)
            },
            Phase::WifiAssociating { timeout } => match event {
                Event::Associated(true) => {
                    let mut effects = quiet();
                    emit(
                        &mut effects,
                        Effect::ProgressStart { first: 0, last: timeout, current: 0 },
                    );
                    self.wifi_wait(effects, timeout, 0)
                },
                _ => self.wifi_prompt(quiet(), timeout),
            },
            Phase::WifiSleeping { timeout, wait } => {
                let mut effects = quiet();
                emit(&mut effects, Effect::ProgressUpdate(wait));
                self.ask(effects, Phase::WifiPolling { timeout, wait }, Request::NetworkStatus)
            },
            Phase::WifiPolling { timeout, wait } => match event {
                Event::Bound(true) => {
                    let mut effects = quiet();
                    emit(&mut effects, Effect::ProgressFinish);
                    self.wifi_end(effects, true)
                },
                _ => self.wifi_wait(quiet(), timeout, wait as u64 + 1),
            },
            other => {
                self.phase = other;
                Step { effects: quiet(), next: Next::Idle }
            },
        }
    }

    fn connect_network(&mut self, effects: Vec<Effect>, up: bool) -> (step: Step)
        ensures
            (final(self)@, step@) == model::connect_network(
                old(self)@,
                effects_view(effects@),
                up,
            ),
    {
        let mut effects = effects;
        if !up {
            emit(&mut effects, Effect::Notify(Notice::NoNetwork));
            self.done(effects, Outcome::Connect(Ok(false)))
        } else if self.manager.is_some() {
            self.connect_end(effects)
        } else {
            self.ask(effects, Phase::Reading, Request::ReadAccount)
        }
    }

    /// The end of a connect cycle: online with a manager, offline without.
    fn connect_end(&mut self, effects: Vec<Effect>) -> (step: Step)
        ensures
            (final(self)@, step@) == model::connect_end(old(self)@, effects_view(effects@)),
    {
        let mut effects = effects;
        if self.manager.is_some() {
            emit(&mut effects, Effect::Status(Status::Online));
            self.done(effects, Outcome::Connect(Ok(true)))
        } else {
            emit(&mut effects, Effect::Status(Status::Offline));
            self.done(effects, Outcome::Connect(Ok(false)))
        }
    }
}

// ---------------------------------------------------------------------
// The connect cycle.
// ---------------------------------------------------------------------
impl SigChat {
    /// Begins a connect cycle: the network gate first; then, unless a
    /// manager is live, the stored account or else account setup; then the
    /// session.
    ///
    /// The cycle ends with `Ok(true)` when a manager is live, with
    /// `Ok(false)` when there is no network, and with an error when setup
    /// was needed and did not succeed.
    pub fn connect(&mut self) -> (step: Step)
        requires
            old(self)@.phase is Idle,
        ensures
            (final(self)@, step@) == model::connect(old(self)@),
            model::consistent(final(self)@),
    {
        self.goal = Goal::Connect;
        self.wifi_begin(quiet(), WIFI_TIMEOUT)
    }

    /// The cycle once it has an account: the manager is made anew, between
    /// the signals that show the work.
    fn connect_account(&mut self, effects: Vec<Effect>, account: Account) -> (step: Step)
        ensures
            (final(self)@, step@) == model::connect_account(
                old(self)@,
                effects_view(effects@),
                account@,
            ),
    {
        let mut effects = effects;
        emit(&mut effects, Effect::Status(Status::Connecting));
        emit(&mut effects, Effect::Busy(true));
        emit(&mut effects, Effect::Install(Manager::new(account.clone(), TrustMode::OnFirstUse)));
        emit(&mut effects, Effect::Busy(false));
        self.manager = Some(Manager::new(account, TrustMode::OnFirstUse));
        self.connect_end(effects)
    }

    /// The cycle's decision on what the store read.
    fn connect_read(&mut self, event: Event) -> (step: Step)
        ensures
            (final(self)@, step@) == model::connect_read(old(self)@, event@),
    {
        match Self::record(event) {
            Some(account) => self.connect_account(quiet(), account),
            None => self.setup_begin(quiet()),
        }
    }
}

// ---------------------------------------------------------------------
// Account setup.
// ---------------------------------------------------------------------
impl SigChat {
    /// Begins account setup: the operator chooses between linking this
    /// device, registering anew, and going on without an account.
    pub fn account_setup(&mut self) -> (step: Step)
        requires
            old(self)@.phase is Idle,
        ensures
            (final(self)@, step@) == model::account_setup(old(self)@),
            model::consistent(final(self)@),
    {
        self.goal = Goal::Setup;
        self.setup_begin(quiet())
    }

    fn setup_begin(&mut self, effects: Vec<Effect>) -> (step: Step)
        ensures
            (final(self)@, step@) == model::setup_begin(old(self)@, effects_view(effects@)),
    {
        self.ask(effects, Phase::Choosing, Request::Choose(Menu::AccountSetup))
    }

    fn setup_end(&mut self, effects: Vec<Effect>, outcome: SetupOutcome) -> (step: Step)
        ensures
            (final(self)@, step@) == model::setup_end(
                old(self)@,
                effects_view(effects@),
                outcome@,
            ),
    {
        match self.goal {
            Goal::Connect => match outcome {
                SetupOutcome::Succeeded(account) => self.connect_account(effects, account),
                SetupOutcome::Aborted => self.done(
                    effects,
                    Outcome::Connect(Err(ConnectError::SetupAborted)),
                ),
                SetupOutcome::Failed(failure) => self.done(
                    effects,
                    Outcome::Connect(Err(ConnectError::SetupFailed(failure))),
                ),
            },
            _ => self.done(effects, Outcome::Setup(outcome)),
        }
    }

    /// Setup's decision on the operator's choice.
    fn setup_chosen(&mut self, event: Event) -> (step: Step)
        ensures
            (final(self)@, step@) == model::setup_chosen(old(self)@, event@),
    {
        match Self::selection(Menu::AccountSetup, &event) {
            Selection::Picked(Choice::Link) => self.host_prompt(quiet(), Flow::Link),
            Selection::Picked(Choice::Register) => self.host_prompt(quiet(), Flow::Register),
            Selection::Picked(Choice::Offline) => self.setup_end(quiet(), SetupOutcome::Aborted),
            Selection::Picked(_) => self.setup_end(
                quiet(),
                SetupOutcome::Failed(Failure::InvalidChoice),
            ),
            Selection::OutOfRange => self.setup_end(
                quiet(),
                SetupOutcome::Failed(Failure::InvalidChoice),
            ),
            Selection::Failed => self.setup_end(
                quiet(),
                SetupOutcome::Failed(Failure::PromptFailed),
            ),
        }
    }

    fn host_prompt(&mut self, effects: Vec<Effect>, flow: Flow) -> (step: Step)
        ensures
            (final(self)@, step@) == model::host_prompt(old(self)@, effects_view(effects@), flow),
    {
        self.ask(effects, Phase::HostPrompt { flow }, Request::Prompt(Field::Host))
    }

    /// Setup's decision on the host entered.
    fn host_entered(&mut self, flow: Flow, event: Event) -> (step: Step)
        ensures
            (final(self)@, step@) == model::host_entered(old(self)@, flow, event@),
    {
        match Self::host_modal(&event) {
            Some(host) => self.probe_host(
                quiet(),
                flow,
                Config::new(host, ServiceEnvironment::Staging),
            ),
            None => match event {
                Event::Text(Some(_)) => {
                    let mut effects = quiet();
                    emit(&mut effects, Effect::Notify(Notice::InvalidHost));
                    self.host_prompt(effects, flow)
                },
                _ => self.host_prompt(quiet(), flow),
            },
        }
    }

    /// Sends the probe of the host's certificate chain, with the signals
    /// that show it.
    fn probe_host(&mut self, effects: Vec<Effect>, flow: Flow, config: Config) -> (step: Step)
        ensures
            (final(self)@, step@) == model::probe_host(
                old(self)@,
                effects_view(effects@),
                flow,
                config@,
            ),
    {
        let mut effects = effects;
        emit(&mut effects, Effect::Status(Status::Probing));
        emit(&mut effects, Effect::Busy(true));
        let host = config.host().clone();
        self.ask(
            effects,
            Phase::Probing { flow, config },
            Request::Probe { host, accept_first_use: true },
        )
    }

    /// Setup's decision on the probe.
    fn host_probed(&mut self, flow: Flow, config: Config, event: Event) -> (step: Step)
        ensures
            (final(self)@, step@) == model::host_probed(old(self)@, flow, config@, event@),
    {
        let mut effects = quiet();
        match event {
            Event::Trusted(true) => {
                emit(&mut effects, Effect::Busy(false));
                match flow {
                    Flow::Link => self.link_create(effects, config),
                    Flow::Register => self.register_prompt(effects, config),
                }
            },
            _ => {
                emit(&mut effects, Effect::Notify(Notice::SetupAborted));
                emit(&mut effects, Effect::Busy(false));
                self.setup_end(effects, SetupOutcome::Failed(Failure::UntrustedHost))
            },
        }
    }
}

// ---------------------------------------------------------------------
// Linking.
// ---------------------------------------------------------------------
impl SigChat {
    /// Begins linking this device to an existing account on the host of
    /// `config`. The host is probed first; no record is created for a host
    /// that is not trusted.
    pub fn account_link(&mut self, config: &Config) -> (step: Step)
        requires
            old(self)@.phase is Idle,
        ensures
            (final(self)@, step@) == model::account_link(old(self)@, config@),
            model::consistent(final(self)@),
    {
        self.goal = Goal::Setup;
        self.probe_host(quiet(), Flow::Link, config.clone())
    }

    fn link_create(&mut self, effects: Vec<Effect>, config: Config) -> (step: Step)
        ensures
            (final(self)@, step@) == model::link_create(
                old(self)@,
                effects_view(effects@),
                config@,
            ),
    {
        let mut effects = effects;
        emit(&mut effects, Effect::Status(Status::Initializing));
        emit(&mut effects, Effect::Busy(true));
        self.ask(
            effects,
            Phase::LinkCreating,
            Request::CreateAccount {
                host: config.host().clone(),
                environment: config.service_environment(),
            },
        )
    }

    /// The linking flow's decision on an event that came in `phase`.
    fn link_event(&mut self, phase: Phase, event: Event) -> (step: Step)
        ensures
            (final(self)@, step@) == model::link_event(
                SigChatView { phase: phase@, ..old(self)@ },
                event@,
            ),
    {
        let mut effects = quiet();
        match phase {
            Phase::LinkCreating => match Self::record(event) {
                Some(account) => self.ask(
                    effects,
                    Phase::LinkNaming { account },
                    Request::Prompt(Field::DeviceName),
                ),
                None => {
                    emit(&mut effects, Effect::Busy(false));
                    emit(&mut effects, Effect::Notify(Notice::AccountFailed));
                    self.setup_end(effects, SetupOutcome::Failed(Failure::CreateFailed))
                },
            },
            Phase::LinkNaming { account } => {
                let device_name = Self::name_modal(event);
                emit(&mut effects, Effect::Status(Status::Connecting));
                emit(&mut effects, Effect::Busy(true));
                self.ask(
                    effects,
                    Phase::Linking,
                    Request::Link { account, trust_mode: TrustMode::OnFirstUse, device_name },
                )
            },
            Phase::Linking => match Self::linked(event) {
                Ok(true) => {
                    emit(&mut effects, Effect::Busy(false));
                    self.ask(effects, Phase::LinkReading, Request::ReadAccount)
                },
                Ok(false) => {
                    emit(&mut effects, Effect::Busy(false));
                    self.setup_end(effects, SetupOutcome::Failed(Failure::LinkDeclined))
                },
                Err(message) => self.ask(
                    effects,
                    Phase::LinkRollback { message },
                    Request::DeleteAccount,
                ),
            },
            Phase::LinkReading => match Self::record(event) {
                Some(account) => self.setup_end(effects, SetupOutcome::Succeeded(account)),
                None => self.setup_end(effects, SetupOutcome::Failed(Failure::ReadFailed)),
            },
            Phase::LinkRollback { message } => {
                emit(&mut effects, Effect::Busy(false));
                emit(&mut effects, Effect::Notify(Notice::Message(message)));
                self.setup_end(effects, SetupOutcome::Failed(Failure::LinkFailed))
            },
            other => {
                self.phase = other;
                Step { effects, next: Next::Idle }
            },
        }
    }
}

// ---------------------------------------------------------------------
// Registering.
// ---------------------------------------------------------------------
impl SigChat {
    /// Begins registering a new account with the host of `config`. The host
    /// is probed first. Registration is not available: whatever the steps
    /// in between achieve in the store, the flow ends in
    /// `Failure::NotImplemented`, and the manager stays as it was.
    pub fn account_register(&mut self, config: &Config) -> (step: Step)
        requires
            old(self)@.phase is Idle,
        ensures
            (final(self)@, step@) == model::account_register(old(self)@, config@),
            model::consistent(final(self)@),
    {
        self.goal = Goal::Setup;
        self.probe_host(quiet(), Flow::Register, config.clone())
    }

    fn register_prompt(&mut self, effects: Vec<Effect>, config: Config) -> (step: Step)
        ensures
            (final(self)@, step@) == model::register_prompt(
                old(self)@,
                effects_view(effects@),
                config@,
            ),
    {
        let mut effects = effects;
        emit(&mut effects, Effect::Notify(Notice::RegistrationUnavailable));
        self.ask(effects, Phase::RegisterNumber { config }, Request::Prompt(Field::PhoneNumber))
    }

    fn register_end(&mut self, effects: Vec<Effect>) -> (step: Step)
        ensures
            (final(self)@, step@) == model::register_end(old(self)@, effects_view(effects@)),
    {
        self.setup_end(effects, SetupOutcome::Failed(Failure::NotImplemented))
    }

    /// The registering flow's decision on an event that came in `phase`.
    fn register_event(&mut self, phase: Phase, event: Event) -> (step: Step)
        ensures
            (final(self)@, step@) == model::register_event(
                SigChatView { phase: phase@, ..old(self)@ },
                event@,
            ),
    {
        let effects = quiet();
        match phase {
            Phase::RegisterNumber { config } => match Self::number_modal(event) {
                Ok(number) => self.ask(
                    effects,
                    Phase::RegisterCreating { number },
                    Request::CreateAccount {
                        host: config.host().clone(),
                        environment: config.service_environment(),
                    },
                ),
                Err(_) => self.register_end(effects),
            },
            Phase::RegisterCreating { number } => match Self::record(event) {
                Some(_) => self.ask(
                    effects,
                    Phase::RegisterNumbering,
                    Request::SetNumber { number },
                ),
                None => self.register_end(effects),
            },
            Phase::RegisterNumbering => self.register_end(effects),
            other => {
                self.phase = other;
                Step { effects, next: Next::Idle }
            },
        }
    }
}

// ---------------------------------------------------------------------
// The one way on, and the signals that belong to no operation.
// ---------------------------------------------------------------------
impl SigChat {
    /// Carries the operation on with the event that answers the request
    /// that is out. With nothing under way, nothing happens.
    pub fn advance(&mut self, event: Event) -> (step: Step)
        ensures
            (final(self)@, step@) == model::advance(old(self)@, event@),
            model::consistent(old(self)@) ==> model::consistent(final(self)@),
    {
        let mut phase = Phase::Idle;
        core::mem::swap(&mut self.phase, &mut phase);
        match phase {
            Phase::Idle => Step { effects: quiet(), next: Next::Idle },
            Phase::WifiChecking { .. }
            | Phase::WifiAsking { .. }
            | Phase::WifiAssociating { .. }
            | Phase::WifiSleeping { .. }
            | Phase::WifiPolling { .. } => self.wifi_event(phase, event),
            Phase::Reading => self.connect_read(event),
            Phase::Choosing => self.setup_chosen(event),
            Phase::HostPrompt { flow } => self.host_entered(flow, event),
            Phase::Probing { flow, config } => self.host_probed(flow, config, event),
            Phase::LinkCreating
            | Phase::LinkNaming { .. }
            | Phase::Linking
            | Phase::LinkReading
            | Phase::LinkRollback { .. } => self.link_event(phase, event),
            Phase::RegisterNumber { .. }
            | Phase::RegisterCreating { .. }
            | Phase::RegisterNumbering => self.register_event(phase, event),
        }
    }

    /// The signal that has the chat redrawn.
    pub fn redraw(&self) -> (effect: Effect)
        ensures
            effect@ == EffectView::Redraw,
    {
        Effect::Redraw
    }

    /// The signal that shows the dialogue of `room_alias`.
    pub fn dialogue_set(&self, room_alias: Option<&str>) -> (effect: Effect)
        ensures
            effect@ == EffectView::Dialogue(
                match room_alias {
                    Some(alias) => Some(alias@),
                    None => None,
                },
            ),
    {
        Effect::Dialogue(
            match room_alias {
                Some(alias) => Some(alias.to_owned()),
                None => None,
            },
        )
    }

    /// The signal that shows the help.
    pub fn help(&self) -> (effect: Effect)
        ensures
            effect@ == EffectView::Help,
    {
        Effect::Help
    }
}

} // verus!
