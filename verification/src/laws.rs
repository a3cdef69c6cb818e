//! What holds of every operation, whatever the events: the bound on the
//! network wait, the silence of a cycle that has its manager, the trust
//! gate before any account, and the rollback of a link that broke off.

use crate::account::{AccountView, ConfigView, ManagerView, TrustMode};
use crate::host::{domain_of, host_parse, is_domain, ParsedHostView, DEFAULT_HOST};
use crate::model::{
    account_link, account_register, account_setup, advance, connect, consistent, ensure_network,
    entered, in_gate, in_wait, manager_for, name_modal, new, quiet, wifi_try_modal, Flow, Goal,
    PhaseView, SigChatView, WIFI_TIMEOUT,
};
use crate::outcome::{ConnectError, Failure, OutcomeView, SetupOutcomeView};
use crate::protocol::{
    EffectView, EventView, Field, Menu, NextView, NoticeView, RequestView, Status, StepView,
};
use vstd::prelude::*;

verus! {

// ---------------------------------------------------------------------
// Operations as a whole.
// ---------------------------------------------------------------------
/// The ways to begin an operation.
pub enum Command {
    Connect,
    Network { timeout: u32 },
    Setup,
    Link(ConfigView),
    Register(ConfigView),
}

/// The first decision of an operation.
pub open spec fn begin(s: SigChatView, command: Command) -> (SigChatView, StepView) {
    match command {
        Command::Connect => connect(s),
        Command::Network { timeout } => ensure_network(s, timeout),
        Command::Setup => account_setup(s),
        Command::Link(config) => account_link(s, config),
        Command::Register(config) => account_register(s, config),
    }
}

/// The steps that `events` draw from a session in state `s`, one for each
/// event, in order.
pub open spec fn run(s: SigChatView, events: Seq<EventView>) -> Seq<StepView>
    decreases events.len(),
{
    if events.len() == 0 {
        Seq::empty()
    } else {
        seq![advance(s, events[0]).1] + run(advance(s, events[0]).0, events.drop_first())
    }
}

/// The state that `events` leave a session in.
pub open spec fn state_after(s: SigChatView, events: Seq<EventView>) -> SigChatView
    decreases events.len(),
{
    if events.len() == 0 {
        s
    } else {
        state_after(advance(s, events[0]).0, events.drop_first())
    }
}

/// All the steps of an operation: its first, then one for each event.
pub open spec fn operation(s: SigChatView, command: Command, events: Seq<EventView>) -> Seq<
    StepView,
> {
    seq![begin(s, command).1] + run(begin(s, command).0, events)
}

/// Each event draws one step, and the steps after the first are those of
/// the run that goes on from the second state.
proof fn lemma_run_unfold(s: SigChatView, events: Seq<EventView>)
    ensures
        run(s, events).len() == events.len(),
        events.len() > 0 ==> run(s, events)[0] == advance(s, events[0]).1,
        forall|k: int|
            1 <= k < events.len() ==> run(s, events)[k] == run(
                advance(s, events[0]).0,
                events.drop_first(),
            )[k - 1],
    decreases events.len(),
{
    if events.len() > 0 {
        lemma_run_unfold(advance(s, events[0]).0, events.drop_first());
    }
}

// ---------------------------------------------------------------------
// The network gate.
// ---------------------------------------------------------------------
/// Whether a step goes on with the network gate.
pub open spec fn gate_request(next: NextView) -> bool {
    match next {
        NextView::Ask(RequestView::NetworkStatus) => true,
        NextView::Ask(RequestView::Associate) => true,
        NextView::Ask(RequestView::Sleep { .. }) => true,
        NextView::Ask(RequestView::Choose(Menu::ConnectWifi)) => true,
        _ => false,
    }
}

/// How often the network is polled at the head of `steps`: the polls
/// counted up to the first step that neither sleeps nor polls.
pub open spec fn polls_before_prompt(steps: Seq<StepView>) -> nat
    decreases steps.len(),
{
    if steps.len() == 0 {
        0
    } else {
        match steps[0].next {
            NextView::Ask(RequestView::NetworkStatus) => 1 + polls_before_prompt(
                steps.drop_first(),
            ),
            NextView::Ask(RequestView::Sleep { .. }) => polls_before_prompt(steps.drop_first()),
            _ => 0,
        }
    }
}

/// The polls that a waiting session still has before it turns to the
/// operator.
pub open spec fn polls_left(phase: PhaseView) -> int {
    match phase {
        PhaseView::WifiSleeping { timeout, wait } => timeout - wait,
        PhaseView::WifiPolling { timeout, wait } => timeout - wait - 1,
        _ => 0,
    }
}

/// A waiting session polls no more often than it has polls left.
pub proof fn lemma_wait_bounded(s: SigChatView, events: Seq<EventView>)
    requires
        in_wait(s.phase),
    ensures
        polls_before_prompt(run(s, events)) <= polls_left(s.phase),
    decreases events.len(),
{
    if events.len() > 0 {
        let (next, step) = advance(s, events[0]);
        assert(run(s, events).drop_first() =~= run(next, events.drop_first()));
        if in_wait(next.phase) {
            lemma_wait_bounded(next, events.drop_first());
        }
    }
}

/// Once the operator has said yes, the session polls the network at most
/// `timeout` times before it asks the operator again or ends.
pub proof fn lemma_wifi_polls_bounded(s: SigChatView, events: Seq<EventView>)
    requires
        s.phase is WifiAssociating,
    ensures
        polls_before_prompt(run(s, events)) <= s.phase->WifiAssociating_timeout,
{
    if events.len() > 0 {
        let (next, step) = advance(s, events[0]);
        assert(run(s, events).drop_first() =~= run(next, events.drop_first()));
        if in_wait(next.phase) {
            lemma_wait_bounded(next, events.drop_first());
        }
    }
}

/// Whether no event says that the network is bound.
pub open spec fn never_bound(events: Seq<EventView>) -> bool {
    forall|i: int| 0 <= i < events.len() ==> events[i] != EventView::Bound(true)
}

/// A wait that never sees the network bound uses every poll it has and
/// then turns to the operator: it neither ends early nor goes on by
/// itself.
pub proof fn lemma_wait_times_out(s: SigChatView, events: Seq<EventView>)
    requires
        s.phase is WifiSleeping,
        in_wait(s.phase),
        never_bound(events),
        events.len() == 2 * polls_left(s.phase),
    ensures
        polls_before_prompt(run(s, events)) == polls_left(s.phase),
        run(s, events).last().next == NextView::Ask(RequestView::Choose(Menu::ConnectWifi)),
        state_after(s, events).phase == (PhaseView::WifiAsking {
            timeout: s.phase->WifiSleeping_timeout,
        }),
    decreases events.len(),
{
    let polled = advance(s, events[0]).0;
    let after = events.drop_first();
    let slept = advance(polled, after[0]).0;
    let rest = after.drop_first();
    assert(after[0] == events[1]);
    assert(run(s, events).drop_first() =~= run(polled, after));
    assert(run(polled, after).drop_first() =~= run(slept, rest));
    assert(state_after(s, events) == state_after(polled, after));
    assert(state_after(polled, after) == state_after(slept, rest));
    assert(polls_before_prompt(run(s, events)) == 1 + polls_before_prompt(run(polled, after)));
    lemma_run_unfold(s, events);
    lemma_run_unfold(polled, after);
    if polls_left(s.phase) > 1 {
        assert forall|i: int| 0 <= i < rest.len() implies rest[i] != EventView::Bound(true) by {
            assert(rest[i] == events[i + 2]);
        }
        lemma_wait_times_out(slept, rest);
        lemma_run_unfold(slept, rest);
        assert(polls_before_prompt(run(polled, after)) == polls_before_prompt(run(slept, rest)));
        assert(run(s, events).last() == run(slept, rest).last());
    } else {
        assert(rest.len() == 0);
        assert(polls_before_prompt(run(polled, after)) == 0);
        assert(run(s, events).last() == advance(polled, after[0]).1);
    }
}

/// The network wait ends with the verdict that there is no network only
/// when the operator, asked, does not say yes. It then shows nothing
/// itself.
pub proof fn lemma_wifi_false_only_on_refusal(s: SigChatView, event: EventView)
    requires
        advance(s, event).1.next == NextView::Done(OutcomeView::Network(false)),
    ensures
        s.phase is WifiAsking,
        !wifi_try_modal(event),
        advance(s, event).1.effects == quiet(),
{
}

/// A connect cycle that finds no network and an operator who does not say
/// yes is over after two answers: it ends with `Ok(false)` and the notice
/// that there is no network, the store was not asked for anything, and the
/// session is as it was.
pub proof fn lemma_refusal_ends_cycle(s: SigChatView, unbound: EventView, refusal: EventView)
    requires
        !s.hosted,
        s.phase is Idle,
        unbound != EventView::Bound(true),
        !wifi_try_modal(refusal),
    ensures
        operation(s, Command::Connect, seq![unbound, refusal]) == seq![
            StepView { effects: quiet(), next: NextView::Ask(RequestView::NetworkStatus) },
            StepView {
                effects: quiet(),
                next: NextView::Ask(RequestView::Choose(Menu::ConnectWifi)),
            },
            StepView {
                effects: seq![EffectView::Notify(NoticeView::NoNetwork)],
                next: NextView::Done(OutcomeView::Connect(Ok(false))),
            },
        ],
        state_after(connect(s).0, seq![unbound, refusal]) == (SigChatView {
            goal: Goal::Connect,
            ..s
        }),
{
    let events = seq![unbound, refusal];
    let asked = connect(s).0;
    let prompted = advance(asked, unbound).0;
    let ended = advance(prompted, refusal);
    assert(events.drop_first() =~= seq![refusal]);
    assert(events.drop_first().drop_first() =~= Seq::<EventView>::empty());
    reveal_with_fuel(run, 3);
    reveal_with_fuel(state_after, 3);
    assert(ended.1.effects =~= seq![EffectView::Notify(NoticeView::NoNetwork)]);
    assert(operation(s, Command::Connect, events) =~= seq![
        connect(s).1,
        advance(asked, unbound).1,
        ended.1,
    ]);
}

/// The instant the network is seen bound, the wait is over with the verdict
/// that the network is usable: no tick is waited out, and the operator is
/// not asked.
pub proof fn lemma_wifi_bound_ends_gate(s: SigChatView)
    requires
        s.phase is WifiChecking || s.phase is WifiPolling,
    ensures
        !in_gate(advance(s, EventView::Bound(true)).0.phase),
        !gate_request(advance(s, EventView::Bound(true)).1.next),
        s.goal != Goal::Connect ==> advance(s, EventView::Bound(true)).1.next == NextView::Done(
            OutcomeView::Network(true),
        ),
{
}

proof fn lemma_past_the_wait(s: SigChatView, events: Seq<EventView>, k: int)
    requires
        !in_gate(s.phase),
        0 <= k < events.len(),
    ensures
        !gate_request(run(s, events)[k].next),
    decreases k,
{
    lemma_run_unfold(s, events);
    if k > 0 {
        lemma_past_the_wait(advance(s, events[0]).0, events.drop_first(), k - 1);
    }
}

/// In hosted mode no operation ever asks for the network, sleeps, or asks
/// the operator whether to connect.
pub proof fn lemma_hosted_never_waits(
    s: SigChatView,
    command: Command,
    events: Seq<EventView>,
    k: int,
)
    requires
        s.hosted,
        0 <= k < operation(s, command, events).len(),
    ensures
        !gate_request(operation(s, command, events)[k].next),
{
    let first = begin(s, command).0;
    lemma_run_unfold(first, events);
    if k > 0 {
        lemma_past_the_wait(first, events, k - 1);
    }
}

// ---------------------------------------------------------------------
// The network wait over all its rounds.
// ---------------------------------------------------------------------
/// How often `steps` look at the network.
pub open spec fn polls(steps: Seq<StepView>) -> nat
    decreases steps.len(),
{
    if steps.len() == 0 {
        0
    } else if steps[0].next == NextView::Ask(RequestView::NetworkStatus) {
        1 + polls(steps.drop_first())
    } else {
        polls(steps.drop_first())
    }
}

/// How often `steps` tell the network layer to associate: once for each
/// time that the operator said yes.
pub open spec fn associations(steps: Seq<StepView>) -> nat
    decreases steps.len(),
{
    if steps.len() == 0 {
        0
    } else if steps[0].next == NextView::Ask(RequestView::Associate) {
        1 + associations(steps.drop_first())
    } else {
        associations(steps.drop_first())
    }
}

/// The timeout that the network wait runs with; none outside it.
pub open spec fn timeout_of(phase: PhaseView) -> int {
    match phase {
        PhaseView::WifiChecking { timeout } => timeout as int,
        PhaseView::WifiAsking { timeout } => timeout as int,
        PhaseView::WifiAssociating { timeout } => timeout as int,
        PhaseView::WifiSleeping { timeout, wait } => timeout as int,
        PhaseView::WifiPolling { timeout, wait } => timeout as int,
        _ => 0,
    }
}

/// The looks at the network that the round under way may still take.
pub open spec fn polls_due(phase: PhaseView) -> int {
    match phase {
        PhaseView::WifiAssociating { timeout } => timeout as int,
        PhaseView::WifiSleeping { timeout, wait } => timeout - wait,
        PhaseView::WifiPolling { timeout, wait } => timeout - wait - 1,
        _ => 0,
    }
}

/// The timeout that an operation begins the network wait with.
pub open spec fn timeout_for(command: Command) -> int {
    match command {
        Command::Connect => WIFI_TIMEOUT as int,
        Command::Network { timeout } => timeout as int,
        _ => 0,
    }
}

proof fn lemma_no_polls_past_the_wait(s: SigChatView, events: Seq<EventView>)
    requires
        !in_gate(s.phase),
    ensures
        polls(run(s, events)) == 0,
        associations(run(s, events)) == 0,
    decreases events.len(),
{
    if events.len() > 0 {
        let next = advance(s, events[0]).0;
        assert(run(s, events).drop_first() =~= run(next, events.drop_first()));
        lemma_no_polls_past_the_wait(next, events.drop_first());
    }
}

proof fn lemma_rounds(s: SigChatView, events: Seq<EventView>)
    requires
        s.phase is WifiSleeping || s.phase is WifiPolling ==> in_wait(s.phase),
    ensures
        polls(run(s, events)) <= polls_due(s.phase) + timeout_of(s.phase) * associations(
            run(s, events),
        ),
    decreases events.len(),
{
    if !in_gate(s.phase) {
        lemma_no_polls_past_the_wait(s, events);
    } else if events.len() > 0 {
        let next = advance(s, events[0]).0;
        let rest = run(next, events.drop_first());
        let timeout = timeout_of(s.phase);
        assert(run(s, events).drop_first() =~= rest);
        lemma_rounds(next, events.drop_first());
        if in_gate(next.phase) {
            assert(timeout_of(next.phase) == timeout);
            assert(timeout * (1 + associations(rest)) == timeout + timeout * associations(rest))
                by (nonlinear_arith);
        } else {
            lemma_no_polls_past_the_wait(next, events.drop_first());
            assert(timeout * associations(rest) == 0) by (nonlinear_arith)
                requires
                    associations(rest) == 0,
            ;
        }
    }
}

/// Over all the rounds of the network wait: an operation looks at the
/// network once unprompted, and after that at most `timeout` times for each
/// time that the operator said yes.
pub proof fn lemma_polls_per_round(s: SigChatView, command: Command, events: Seq<EventView>)
    ensures
        polls(operation(s, command, events)) <= 1 + timeout_for(command) * associations(
            operation(s, command, events),
        ),
{
    let first = begin(s, command).0;
    let rest = run(first, events);
    assert(operation(s, command, events).drop_first() =~= rest);
    lemma_rounds(first, events);
    if !in_gate(first.phase) {
        lemma_no_polls_past_the_wait(first, events);
        assert(timeout_for(command) * associations(rest) == 0) by (nonlinear_arith)
            requires
                associations(rest) == 0,
        ;
    }
}

// ---------------------------------------------------------------------
// A cycle that has its manager.
// ---------------------------------------------------------------------
/// Whether a step keeps to the network: it asks for nothing but what the
/// network wait asks for, and installs no manager.
pub open spec fn network_only(step: StepView) -> bool {
    &&& step.next is Ask ==> gate_request(step.next)
    &&& forall|i: int| 0 <= i < step.effects.len() ==> !(#[trigger] step.effects[i] is Install)
}

/// Whether a connect cycle that has its manager is under way or over.
pub open spec fn cycle_with_manager(s: SigChatView, manager: ManagerView) -> bool {
    &&& s.manager == Some(manager)
    &&& s.goal == Goal::Connect
    &&& in_gate(s.phase) || s.phase is Idle
}

proof fn lemma_cycle_state(s: SigChatView, manager: ManagerView, events: Seq<EventView>)
    requires
        cycle_with_manager(s, manager),
    ensures
        cycle_with_manager(state_after(s, events), manager),
    decreases events.len(),
{
    if events.len() > 0 {
        lemma_cycle_state(advance(s, events[0]).0, manager, events.drop_first());
    }
}

proof fn lemma_cycle_steps(s: SigChatView, manager: ManagerView, events: Seq<EventView>, k: int)
    requires
        cycle_with_manager(s, manager),
        0 <= k < events.len(),
    ensures
        network_only(run(s, events)[k]),
    decreases k,
{
    lemma_run_unfold(s, events);
    if k > 0 {
        lemma_cycle_steps(advance(s, events[0]).0, manager, events.drop_first(), k - 1);
    }
}

/// A connect cycle of a session that has its manager keeps to the network,
/// whatever the events: the store is not read, the operator is asked
/// nothing about an account, and the manager stays the one it was.
pub proof fn lemma_connect_keeps_manager(s: SigChatView, events: Seq<EventView>)
    requires
        s.manager is Some,
    ensures
        forall|k: int|
            0 <= k < operation(s, Command::Connect, events).len() ==> network_only(
                #[trigger] operation(s, Command::Connect, events)[k],
            ),
        state_after(connect(s).0, events).manager == s.manager,
{
    let first = connect(s).0;
    let manager = s.manager->0;
    lemma_run_unfold(first, events);
    lemma_cycle_state(first, manager, events);
    let steps = operation(s, Command::Connect, events);
    assert forall|k: int| 0 <= k < steps.len() implies network_only(#[trigger] steps[k]) by {
        if k > 0 {
            lemma_cycle_steps(first, manager, events, k - 1);
        }
    }
}

// ---------------------------------------------------------------------
// The trust gate.
// ---------------------------------------------------------------------
/// Whether a step has the account store changed.
pub open spec fn modifies_store(step: StepView) -> bool {
    match step.next {
        NextView::Ask(RequestView::CreateAccount { .. }) => true,
        NextView::Ask(RequestView::DeleteAccount) => true,
        NextView::Ask(RequestView::SetNumber { .. }) => true,
        NextView::Ask(RequestView::Link { .. }) => true,
        _ => false,
    }
}

/// Whether an operation has not yet passed the trust gate: no host has
/// been probed as trusted since it began.
pub open spec fn before_trust(phase: PhaseView) -> bool {
    in_gate(phase) || phase is Idle || phase is Reading || phase is Choosing
        || phase is HostPrompt || phase is Probing
}

/// Whether none of the first `count` events is a verdict of trust.
pub open spec fn no_trust_among(events: Seq<EventView>, count: int) -> bool {
    forall|j: int| 0 <= j < count && j < events.len() ==> events[j] != EventView::Trusted(true)
}

proof fn lemma_before_trust(s: SigChatView, events: Seq<EventView>, k: int)
    requires
        before_trust(s.phase),
        0 <= k < events.len(),
        no_trust_among(events, k + 1),
    ensures
        !modifies_store(run(s, events)[k]),
    decreases k,
{
    lemma_run_unfold(s, events);
    assert(events[0] != EventView::Trusted(true));
    if k > 0 {
        let rest = events.drop_first();
        assert forall|j: int| 0 <= j < k && j < rest.len() implies rest[j] != EventView::Trusted(
            true,
        ) by {
            assert(rest[j] == events[j + 1]);
        }
        lemma_before_trust(advance(s, events[0]).0, rest, k - 1);
    }
}

/// The host that is probed after the prompt is a host in domain form, and
/// the prompt leads to the probe or to itself, nowhere else.
pub proof fn lemma_probed_host_is_domain(s: SigChatView, event: EventView)
    requires
        s.phase is HostPrompt,
    ensures
        match advance(s, event).1.next {
            NextView::Ask(RequestView::Probe { host, accept_first_use }) => is_domain(host)
                && accept_first_use,
            next => next == NextView::Ask(RequestView::Prompt(Field::Host)),
        },
{
    match entered(event) {
        Some(text) => {
            if domain_of(host_parse(text)) is Some {
                assert(host_parse(text) == ParsedHostView::Domain(domain_of(host_parse(text))->0));
            }
        },
        None => {
            let built_in = DEFAULT_HOST@;
            if domain_of(host_parse(built_in)) is Some {
                assert(host_parse(built_in) == ParsedHostView::Domain(
                    domain_of(host_parse(built_in))->0,
                ));
            }
        },
    }
}

/// No step of an operation has the account store changed unless an event
/// before it said that the host is trusted. However an operation is begun
/// and whatever else happens, a probe that is never answered with trust
/// leaves the store as it was.
pub proof fn lemma_trust_gate(s: SigChatView, command: Command, events: Seq<EventView>, k: int)
    requires
        0 <= k < operation(s, command, events).len(),
        no_trust_among(events, k),
    ensures
        !modifies_store(operation(s, command, events)[k]),
{
    let first = begin(s, command).0;
    lemma_run_unfold(first, events);
    if k > 0 {
        lemma_before_trust(first, events, k - 1);
    }
}

// ---------------------------------------------------------------------
// Rollback.
// ---------------------------------------------------------------------
/// The account store under its one key, as the library relies on it: what
/// it holds after a request, and the event it answers with. Creating fails
/// where a record exists; deleting leaves none.
pub open spec fn store_reply(store: Option<AccountView>, request: RequestView) -> (
    Option<AccountView>,
    EventView,
) {
    match request {
        RequestView::ReadAccount => (store, EventView::Account(store)),
        RequestView::CreateAccount { host, environment } => match store {
            Some(_) => (store, EventView::Account(None)),
            None => {
                let created = AccountView { host, service_environment: environment, number: None };
                (Some(created), EventView::Account(Some(created)))
            },
        },
        RequestView::DeleteAccount => (None, EventView::Stored(store is Some)),
        RequestView::SetNumber { number } => match store {
            Some(account) => (
                Some(AccountView { number: Some(number), ..account }),
                EventView::Stored(true),
            ),
            None => (store, EventView::Stored(false)),
        },
        _ => (store, EventView::Stored(false)),
    }
}

/// The failure that an operation reports when setup failed.
pub open spec fn setup_failure(goal: Goal, failure: Failure) -> OutcomeView {
    match goal {
        Goal::Connect => OutcomeView::Connect(Err(ConnectError::SetupFailed(failure))),
        _ => OutcomeView::Setup(SetupOutcomeView::Failed(failure)),
    }
}

/// When linking breaks off with an error, the record that was created for
/// it is deleted before anything is reported: the next request is the
/// deletion, the operation ends only on its answer, as a failed link, and
/// a store that did as it was told then holds no record to read.
pub proof fn lemma_link_error_rolls_back(
    s: SigChatView,
    message: Seq<char>,
    store: Option<AccountView>,
)
    requires
        s.phase is Linking,
    ensures
        ({
            let (rolling, asked) = advance(s, EventView::Linked(Err(message)));
            let (emptied, deleted) = store_reply(store, RequestView::DeleteAccount);
            let (ended, reported) = advance(rolling, deleted);
            &&& asked.next == NextView::Ask(RequestView::DeleteAccount)
            &&& reported.next == NextView::Done(setup_failure(s.goal, Failure::LinkFailed))
            &&& ended.phase is Idle
            &&& ended.manager == s.manager
            &&& store_reply(emptied, RequestView::ReadAccount).1 == EventView::Account(None)
        }),
{
}

// ---------------------------------------------------------------------
// A link that succeeds.
// ---------------------------------------------------------------------
/// What an operation reports when setup succeeded with `account`: setup
/// run for its own sake reports the account, a connect cycle a session.
pub open spec fn setup_success(goal: Goal, account: AccountView) -> OutcomeView {
    match goal {
        Goal::Connect => OutcomeView::Connect(Ok(true)),
        _ => OutcomeView::Setup(SetupOutcomeView::Succeeded(account)),
    }
}

/// Linking to a trusted host against a store that holds no record and does
/// as it is told: whatever the operator calls the device, a confirmed link
/// ends in success, the store holds a record for the host that was probed,
/// and that record is the account reported. A connect cycle has its
/// manager built from it.
pub proof fn lemma_link_stores_the_account(s: SigChatView, config: ConfigView, name: EventView)
    requires
        s.phase == (PhaseView::Probing { flow: Flow::Link, config }),
    ensures
        ({
            let account = AccountView {
                host: config.host,
                service_environment: config.service_environment,
                number: None,
            };
            let (creating, create) = advance(s, EventView::Trusted(true));
            let (held, created) = store_reply(None, create.next->Ask_0);
            let (naming, prompt) = advance(creating, created);
            let (linking, link) = advance(naming, name);
            let (reading, read) = advance(linking, EventView::Linked(Ok(true)));
            let (kept, found) = store_reply(held, read.next->Ask_0);
            let (ended, reported) = advance(reading, found);
            &&& create.next is Ask
            &&& prompt.next == NextView::Ask(RequestView::Prompt(Field::DeviceName))
            &&& link.next == NextView::Ask(
                RequestView::Link {
                    account,
                    trust_mode: TrustMode::OnFirstUse,
                    device_name: name_modal(name),
                },
            )
            &&& read.next is Ask
            &&& kept == Some(account)
            &&& reported.next == NextView::Done(setup_success(s.goal, account))
            &&& s.goal == Goal::Connect ==> ended.manager == Some(manager_for(account))
        }),
{
}

// ---------------------------------------------------------------------
// Setup that ends without an account.
// ---------------------------------------------------------------------
/// The operator who chooses to go on without an account ends setup at
/// once: nothing is shown, nothing is asked of the store, and the outcome
/// is the abort, which to setup is no failure and to a connect cycle is
/// the error that setup was aborted.
pub proof fn lemma_offline_aborts(s: SigChatView)
    requires
        s.phase is Choosing,
    ensures
        advance(s, EventView::Chosen(Some(2))) == (
            SigChatView { phase: PhaseView::Idle, ..s },
            StepView {
                effects: quiet(),
                next: NextView::Done(
                    match s.goal {
                        Goal::Connect => OutcomeView::Connect(Err(ConnectError::SetupAborted)),
                        _ => OutcomeView::Setup(SetupOutcomeView::Aborted),
                    },
                ),
            },
        ),
{
}

/// A link that the primary device does not confirm ends as declined, and
/// the record that was created for it is left in the store: no request
/// follows.
pub proof fn lemma_declined_link_keeps_record(s: SigChatView)
    requires
        s.phase is Linking,
    ensures
        advance(s, EventView::Linked(Ok(false))).1.next == NextView::Done(
            setup_failure(s.goal, Failure::LinkDeclined),
        ),
        advance(s, EventView::Linked(Ok(false))).0 == (SigChatView {
            phase: PhaseView::Idle,
            ..s
        }),
{
}

// ---------------------------------------------------------------------
// The manager.
// ---------------------------------------------------------------------
/// Whether a step carries the signal to build a manager.
pub open spec fn installs(step: StepView) -> bool {
    exists|i: int| 0 <= i < step.effects.len() && #[trigger] step.effects[i] is Install
}

/// Whether a step ends a connect cycle with a session.
pub open spec fn connected(step: StepView) -> bool {
    step.next == NextView::Done(OutcomeView::Connect(Ok(true)))
}

/// The manager changes only on success: a step that leaves the session
/// with another manager, or that carries the signal to build one, is the
/// step that ends a connect cycle with a session, and the signal is to
/// build exactly the manager that the session then has.
pub proof fn lemma_manager_follows_success(s: SigChatView, event: EventView)
    ensures
        ({
            let (next, step) = advance(s, event);
            next.manager != s.manager || installs(step) ==> {
                &&& connected(step)
                &&& next.manager is Some
                &&& step.effects.contains(EffectView::Install(next.manager->0))
            }
        }),
{
    let (next, step) = advance(s, event);
    if next.manager != s.manager || installs(step) {
        assert(step.effects[2] == EffectView::Install(next.manager->0));
    }
}

/// The first step of an operation leaves the manager as it was and has
/// none built.
pub proof fn lemma_begin_keeps_manager(s: SigChatView, command: Command)
    ensures
        begin(s, command).0.manager == s.manager,
        !installs(begin(s, command).1),
{
}

proof fn lemma_kept_until_success(s: SigChatView, events: Seq<EventView>)
    requires
        forall|k: int| 0 <= k < events.len() ==> !connected(#[trigger] run(s, events)[k]),
    ensures
        state_after(s, events).manager == s.manager,
    decreases events.len(),
{
    if events.len() > 0 {
        lemma_run_unfold(s, events);
        let next = advance(s, events[0]).0;
        let rest = events.drop_first();
        lemma_manager_follows_success(s, events[0]);
        assert(!connected(run(s, events)[0]));
        assert forall|k: int| 0 <= k < rest.len() implies !connected(
            #[trigger] run(next, rest)[k],
        ) by {
            assert(run(next, rest)[k] == run(s, events)[k + 1]);
        }
        lemma_kept_until_success(next, rest);
    }
}

/// An operation that does not end a connect cycle with a session leaves
/// the manager as it was: a setup that fails or is aborted, a registration
/// whatever it achieves in the store, a network that stays away.
pub proof fn lemma_manager_kept_until_success(
    s: SigChatView,
    command: Command,
    events: Seq<EventView>,
)
    requires
        forall|k: int|
            0 <= k < operation(s, command, events).len() ==> !connected(
                #[trigger] operation(s, command, events)[k],
            ),
    ensures
        state_after(begin(s, command).0, events).manager == s.manager,
{
    let first = begin(s, command).0;
    lemma_run_unfold(first, events);
    assert forall|k: int| 0 <= k < events.len() implies !connected(
        #[trigger] run(first, events)[k],
    ) by {
        assert(run(first, events)[k] == operation(s, command, events)[k + 1]);
    }
    lemma_kept_until_success(first, events);
}

proof fn lemma_own_sake_step(s: SigChatView, event: EventView)
    requires
        s.goal != Goal::Connect,
        consistent(s),
    ensures
        consistent(advance(s, event).0),
        advance(s, event).0.goal == s.goal,
        advance(s, event).0.manager == s.manager,
        !connected(advance(s, event).1),
        !installs(advance(s, event).1),
{
    lemma_manager_follows_success(s, event);
}

proof fn lemma_own_sake_state(s: SigChatView, events: Seq<EventView>)
    requires
        s.goal != Goal::Connect,
        consistent(s),
    ensures
        state_after(s, events).manager == s.manager,
    decreases events.len(),
{
    if events.len() > 0 {
        lemma_own_sake_step(s, events[0]);
        lemma_own_sake_state(advance(s, events[0]).0, events.drop_first());
    }
}

proof fn lemma_own_sake_steps(s: SigChatView, events: Seq<EventView>, k: int)
    requires
        s.goal != Goal::Connect,
        consistent(s),
        0 <= k < events.len(),
    ensures
        !installs(run(s, events)[k]),
    decreases k,
{
    lemma_run_unfold(s, events);
    lemma_own_sake_step(s, events[0]);
    if k > 0 {
        lemma_own_sake_steps(advance(s, events[0]).0, events.drop_first(), k - 1);
    }
}

/// The network wait and account setup, run for their own sake, never touch
/// the manager: whatever the events, none is built and the session keeps
/// the one it had. So it is with a registration, which ends as not
/// implemented with the manager as it was.
pub proof fn lemma_own_sake_keeps_manager(
    s: SigChatView,
    command: Command,
    events: Seq<EventView>,
)
    requires
        !(command is Connect),
    ensures
        state_after(begin(s, command).0, events).manager == s.manager,
        forall|k: int|
            0 <= k < operation(s, command, events).len() ==> !installs(
                #[trigger] operation(s, command, events)[k],
            ),
{
    let first = begin(s, command).0;
    let steps = operation(s, command, events);
    lemma_run_unfold(first, events);
    lemma_own_sake_state(first, events);
    lemma_begin_keeps_manager(s, command);
    assert forall|k: int| 0 <= k < steps.len() implies !installs(#[trigger] steps[k]) by {
        if k > 0 {
            lemma_own_sake_steps(first, events, k - 1);
        }
    }
}

// ---------------------------------------------------------------------
// The signals that bracket the work.
// ---------------------------------------------------------------------
/// Whether the busy indicator is on after `effects`, given whether it was
/// on before: the last signal that sets it decides.
pub open spec fn busy_after(before: bool, effects: Seq<EffectView>) -> bool
    decreases effects.len(),
{
    if effects.len() == 0 {
        before
    } else {
        match effects.last() {
            EffectView::Busy(busy) => busy,
            _ => busy_after(before, effects.drop_last()),
        }
    }
}

/// Whether the progress indicator is open after `effects`, given whether
/// it was open before.
pub open spec fn progress_after(before: bool, effects: Seq<EffectView>) -> bool
    decreases effects.len(),
{
    if effects.len() == 0 {
        before
    } else {
        match effects.last() {
            EffectView::ProgressStart { .. } => true,
            EffectView::ProgressFinish => false,
            _ => progress_after(before, effects.drop_last()),
        }
    }
}

/// The phases in which the busy indicator is on: while the probe, the
/// creation of the record for a link, and the link itself are out.
pub open spec fn busy_in(phase: PhaseView) -> bool {
    phase is Probing || phase is LinkCreating || phase is LinkNaming || phase is Linking
        || phase is LinkRollback
}

/// The phases in which the progress indicator is open: while the session
/// sleeps and polls.
pub open spec fn in_progress(phase: PhaseView) -> bool {
    phase is WifiSleeping || phase is WifiPolling
}

/// What is left when the last signal is taken away again.
proof fn lemma_pushes()
    ensures
        forall|head: Seq<EffectView>, effect: EffectView|
            #![trigger head.push(effect)]
            head.push(effect).drop_last() == head && head.push(effect).last() == effect,
{
    assert forall|head: Seq<EffectView>, effect: EffectView|
        #![trigger head.push(effect)]
        head.push(effect).drop_last() == head && head.push(effect).last() == effect by {
        assert(head.push(effect).drop_last() =~= head);
    }
}

/// The busy indicator follows the phases: each step leaves it on exactly
/// where the work that it brackets is still out, and so never on when an
/// operation is over.
pub proof fn lemma_busy_brackets(s: SigChatView, event: EventView)
    ensures
        busy_after(busy_in(s.phase), advance(s, event).1.effects) == busy_in(
            advance(s, event).0.phase,
        ),
        !busy_in(PhaseView::Idle),
{
    reveal_with_fuel(busy_after, 8);
    lemma_pushes();
}

/// The progress indicator follows the phases: opened when the wait
/// begins, closed when the network is bound and when the wait runs out.
pub proof fn lemma_progress_brackets(s: SigChatView, event: EventView)
    ensures
        progress_after(in_progress(s.phase), advance(s, event).1.effects) == in_progress(
            advance(s, event).0.phase,
        ),
        !in_progress(PhaseView::Idle),
{
    reveal_with_fuel(progress_after, 8);
    lemma_pushes();
}

/// The first step of an operation, begun with both indicators off, leaves
/// them as its phase has them.
pub proof fn lemma_brackets_begin(s: SigChatView, command: Command)
    ensures
        busy_after(false, begin(s, command).1.effects) == busy_in(begin(s, command).0.phase),
        progress_after(false, begin(s, command).1.effects) == in_progress(
            begin(s, command).0.phase,
        ),
{
    reveal_with_fuel(busy_after, 8);
    reveal_with_fuel(progress_after, 8);
    lemma_pushes();
}

// ---------------------------------------------------------------------
// The states that operations pass through.
// ---------------------------------------------------------------------
/// Whether the registering flow is under way, past the probe.
pub open spec fn in_register(phase: PhaseView) -> bool {
    phase is RegisterNumber || phase is RegisterCreating || phase is RegisterNumbering
}

/// A session starts consistent.
pub proof fn lemma_new_is_consistent(stored: Option<AccountView>, hosted: bool)
    ensures
        consistent(new(stored, hosted)),
{
}

/// The first step of an operation leaves the session consistent.
pub proof fn lemma_begin_is_consistent(s: SigChatView, command: Command)
    ensures
        consistent(begin(s, command).0),
{
}

/// Every event leaves a consistent session consistent.
pub proof fn lemma_advance_keeps_consistent(s: SigChatView, event: EventView)
    requires
        consistent(s),
    ensures
        consistent(advance(s, event).0),
{
}

/// A connect cycle ends offline only for want of a network: in a
/// consistent session no step shows the status "offline", and the one step
/// that ends a cycle with `Ok(false)` is the operator's refusal to bring
/// the network up.
pub proof fn lemma_offline_for_want_of_network(s: SigChatView, event: EventView)
    requires
        consistent(s),
    ensures
        ({
            let step = advance(s, event).1;
            &&& !step.effects.contains(EffectView::Status(Status::Offline))
            &&& step.next == NextView::Done(OutcomeView::Connect(Ok(false))) ==> {
                &&& s.phase is WifiAsking
                &&& step.effects == seq![EffectView::Notify(NoticeView::NoNetwork)]
            }
        }),
{
    let step = advance(s, event).1;
    let offline = EffectView::Status(Status::Offline);
    assert forall|i: int| 0 <= i < step.effects.len() implies step.effects[i] != offline by {}
    if step.next == NextView::Done(OutcomeView::Connect(Ok(false))) {
        assert(step.effects =~= seq![EffectView::Notify(NoticeView::NoNetwork)]);
    }
}

/// A cycle that ends with `Ok(true)` leaves a manager, and its last signal
/// is the status "online".
pub proof fn lemma_online_has_manager(s: SigChatView, event: EventView)
    requires
        advance(s, event).1.next == NextView::Done(OutcomeView::Connect(Ok(true))),
    ensures
        advance(s, event).0.manager is Some,
        advance(s, event).1.effects.len() > 0,
        advance(s, event).1.effects.last() == EffectView::Status(Status::Online),
{
}

/// The account that setup succeeds with is the record that the store read
/// back after the link: setup succeeds in no other way.
pub proof fn lemma_success_is_the_stored_record(
    s: SigChatView,
    event: EventView,
    account: AccountView,
)
    requires
        s.goal != Goal::Connect,
        advance(s, event).1.next == NextView::Done(
            OutcomeView::Setup(SetupOutcomeView::Succeeded(account)),
        ),
    ensures
        s.phase is LinkReading,
        event == EventView::Account(Some(account)),
{
}

/// Registering never succeeds and gives no manager: past the probe, every
/// step either goes on with the flow or ends it as not implemented, and
/// each leaves the manager as it was and has none built.
pub proof fn lemma_register_never_succeeds(s: SigChatView, event: EventView)
    requires
        in_register(s.phase),
    ensures
        ({
            let (next, step) = advance(s, event);
            &&& next.manager == s.manager
            &&& !installs(step)
            &&& {
                ||| in_register(next.phase) && step.next is Ask
                ||| next.phase is Idle && step.next == NextView::Done(
                    setup_failure(s.goal, Failure::NotImplemented),
                )
            }
        }),
{
}

} // verus!
