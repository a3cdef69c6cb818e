use sigchat::{
    Account, Config, ConnectError, Effect, Event, Failure, Field, HostEndpoint, Manager, Menu,
    Next, Notice, Outcome, Request, ServiceEnvironment, SetupOutcome, SigChat, Status, Step,
    TrustMode,
};
use std::collections::VecDeque;

/// Everything outside the session, scripted: what the network, the
/// operator, the verifier, the store and the account manager answer, and a
/// record of what they were asked.
struct World {
    bound: VecDeque<bool>,
    associates: bool,
    choices: VecDeque<Option<u32>>,
    texts: VecDeque<Option<String>>,
    trusted: bool,
    link: Result<bool, String>,
    store: Option<Account>,
    store_creates: bool,
    store_sets: bool,
    effects: Vec<Effect>,
    asked: Vec<String>,
    polls: u32,
    slept: u32,
    store_reads: u32,
    store_writes: u32,
    linked_as: Vec<String>,
}

fn world() -> World {
    World {
        bound: VecDeque::new(),
        associates: true,
        choices: VecDeque::new(),
        texts: VecDeque::new(),
        trusted: true,
        link: Ok(true),
        store: None,
        store_creates: true,
        store_sets: true,
        effects: Vec::new(),
        asked: Vec::new(),
        polls: 0,
        slept: 0,
        store_reads: 0,
        store_writes: 0,
        linked_as: Vec::new(),
    }
}

fn answer(world: &mut World, request: Request) -> Event {
    match request {
        Request::NetworkStatus => {
            world.asked.push("status".to_string());
            world.polls += 1;
            Event::Bound(world.bound.pop_front().unwrap_or(false))
        }
        Request::Associate => {
            world.asked.push("associate".to_string());
            Event::Associated(world.associates)
        }
        Request::Sleep { millis } => {
            world.asked.push("sleep".to_string());
            world.slept += millis;
            Event::Elapsed
        }
        Request::Choose(menu) => {
            world.asked.push(format!("choose {:?}", menu));
            Event::Chosen(world.choices.pop_front().unwrap_or(None))
        }
        Request::Prompt(field) => {
            world.asked.push(format!("prompt {:?}", field));
            Event::Text(world.texts.pop_front().unwrap_or(None))
        }
        Request::Probe { host, accept_first_use } => {
            world.asked.push(format!("probe {} {}", host.name(), accept_first_use));
            Event::Trusted(world.trusted)
        }
        Request::ReadAccount => {
            world.asked.push("read".to_string());
            world.store_reads += 1;
            Event::Account(world.store.clone())
        }
        Request::CreateAccount { host, environment } => {
            world.asked.push(format!("create {} {:?}", host.name(), environment));
            world.store_writes += 1;
            if world.store.is_some() || !world.store_creates {
                Event::Account(None)
            } else {
                let account = Account::new(host, environment);
                world.store = Some(account.clone());
                Event::Account(Some(account))
            }
        }
        Request::DeleteAccount => {
            world.asked.push("delete".to_string());
            world.store_writes += 1;
            Event::Stored(world.store.take().is_some())
        }
        Request::SetNumber { number } => {
            world.asked.push(format!("number {}", number));
            world.store_writes += 1;
            match &mut world.store {
                Some(account) if world.store_sets => {
                    account.set_number(number);
                    Event::Stored(true)
                }
                _ => Event::Stored(false),
            }
        }
        Request::Link { account, trust_mode, device_name } => {
            assert_eq!(Some(&account), world.store.as_ref());
            assert_eq!(trust_mode, TrustMode::OnFirstUse);
            world.asked.push(format!("link {}", device_name));
            world.linked_as.push(device_name);
            Event::Linked(world.link.clone())
        }
    }
}

fn drive(session: &mut SigChat, first: Step, world: &mut World) -> Outcome {
    let mut step = first;
    loop {
        world.effects.extend(step.effects);
        match step.next {
            Next::Ask(request) => {
                let event = answer(world, request);
                step = session.advance(event);
            }
            Next::Done(outcome) => {
                assert!(session.is_idle());
                assert!(!busy(&world.effects));
                assert!(!progress_open(&world.effects));
                return outcome;
            }
            Next::Idle => panic!("no operation is under way"),
        }
    }
}

/// Whether the signals leave the busy indicator on.
fn busy(effects: &[Effect]) -> bool {
    effects
        .iter()
        .rev()
        .find_map(|effect| match effect {
            Effect::Busy(busy) => Some(*busy),
            _ => None,
        })
        .unwrap_or(false)
}

/// Whether the signals leave the progress indicator open.
fn progress_open(effects: &[Effect]) -> bool {
    effects
        .iter()
        .rev()
        .find_map(|effect| match effect {
            Effect::ProgressStart { .. } => Some(true),
            Effect::ProgressFinish => Some(false),
            _ => None,
        })
        .unwrap_or(false)
}

fn connect(session: &mut SigChat, world: &mut World) -> Outcome {
    let first = session.connect();
    drive(session, first, world)
}

fn host(text: &str) -> HostEndpoint {
    HostEndpoint::parse(text).expect("a domain")
}

fn account(name: &str) -> Account {
    Account::new(host(name), ServiceEnvironment::Staging)
}

fn entered(text: &str) -> Option<String> {
    Some(text.to_string())
}

fn asked(world: &World) -> Vec<&str> {
    world.asked.iter().map(|line| line.as_str()).collect()
}

// ---------------------------------------------------------------------
// The four scenarios.
// ---------------------------------------------------------------------

#[test]
fn scenario_link_succeeds() {
    let mut world = world();
    world.bound.push_back(true);
    world.choices.push_back(Some(0));
    world.texts.push_back(entered("chat.example.org"));
    world.texts.push_back(entered("xous"));
    let mut session = SigChat::new(None, false);

    let outcome = connect(&mut session, &mut world);

    assert_eq!(outcome, Outcome::Connect(Ok(true)));
    let stored = world.store.clone().expect("an account in the store");
    assert_eq!(stored.host().name(), "chat.example.org");
    assert_eq!(stored.service_environment(), ServiceEnvironment::Staging);
    assert_eq!(
        asked(&world),
        vec![
            "status",
            "read",
            "choose AccountSetup",
            "prompt Host",
            "probe chat.example.org true",
            "create chat.example.org Staging",
            "prompt DeviceName",
            "link xous",
            "read",
        ]
    );
    assert_eq!(
        world.effects,
        vec![
            Effect::Status(Status::Probing),
            Effect::Busy(true),
            Effect::Busy(false),
            Effect::Status(Status::Initializing),
            Effect::Busy(true),
            Effect::Status(Status::Connecting),
            Effect::Busy(true),
            Effect::Busy(false),
            Effect::Status(Status::Connecting),
            Effect::Busy(true),
            Effect::Install(Manager::new(stored.clone(), TrustMode::OnFirstUse)),
            Effect::Busy(false),
            Effect::Status(Status::Online),
        ]
    );
    assert_eq!(session.manager(), Some(&Manager::new(stored, TrustMode::OnFirstUse)));
}

#[test]
fn scenario_offline_aborts_setup() {
    let mut world = world();
    world.choices.push_back(Some(2));
    let mut session = SigChat::new(None, false);

    let first = session.account_setup();
    let outcome = drive(&mut session, first, &mut world);

    assert_eq!(outcome, Outcome::Setup(SetupOutcome::Aborted));
    assert_eq!(asked(&world), vec!["choose AccountSetup"]);
    assert_eq!(world.store, None);
    assert_eq!(world.store_reads + world.store_writes, 0);
    assert_eq!(world.effects, vec![]);
    assert_eq!(session.manager(), None);
}

#[test]
fn scenario_offline_leaves_a_stored_account_alone() {
    let mut world = world();
    world.store = Some(account("example.org"));
    world.choices.push_back(Some(2));
    let mut session = SigChat::new(None, false);

    let first = session.account_setup();
    let outcome = drive(&mut session, first, &mut world);

    assert_eq!(outcome, Outcome::Setup(SetupOutcome::Aborted));
    assert_eq!(world.store, Some(account("example.org")));
    assert_eq!(world.store_reads + world.store_writes, 0);
}

#[test]
fn scenario_no_network_and_the_operator_declines() {
    let mut world = world();
    world.bound.push_back(false);
    world.choices.push_back(Some(1));
    let mut session = SigChat::new(None, false);

    let outcome = connect(&mut session, &mut world);

    assert_eq!(outcome, Outcome::Connect(Ok(false)));
    assert_eq!(asked(&world), vec!["status", "choose ConnectWifi"]);
    assert_eq!(world.store_reads + world.store_writes, 0);
    assert_eq!(world.effects, vec![Effect::Notify(Notice::NoNetwork)]);
    assert_eq!(session.manager(), None);
}

#[test]
fn scenario_register_is_not_implemented() {
    let mut world = world();
    world.bound.push_back(true);
    world.choices.push_back(Some(1));
    world.texts.push_back(entered("chat.example.org"));
    world.texts.push_back(entered("+15551234567"));
    let mut session = SigChat::new(None, false);

    let outcome = connect(&mut session, &mut world);

    assert_eq!(
        outcome,
        Outcome::Connect(Err(ConnectError::SetupFailed(Failure::NotImplemented)))
    );
    assert_eq!(
        asked(&world),
        vec![
            "status",
            "read",
            "choose AccountSetup",
            "prompt Host",
            "probe chat.example.org true",
            "prompt PhoneNumber",
            "create chat.example.org Staging",
            "number +15551234567",
        ]
    );
    let mut registered = account("chat.example.org");
    registered.set_number("+15551234567".to_string());
    assert_eq!(world.store, Some(registered));
    assert_eq!(
        world.effects,
        vec![
            Effect::Status(Status::Probing),
            Effect::Busy(true),
            Effect::Busy(false),
            Effect::Notify(Notice::RegistrationUnavailable),
        ]
    );
    assert_eq!(session.manager(), None);
}

#[test]
fn scenario_register_is_not_implemented_when_creation_fails() {
    let mut world = world();
    world.bound.push_back(true);
    world.store_creates = false;
    world.choices.push_back(Some(1));
    world.texts.push_back(entered("chat.example.org"));
    world.texts.push_back(entered("+15551234567"));
    let mut session = SigChat::new(None, false);

    let outcome = connect(&mut session, &mut world);

    assert_eq!(
        outcome,
        Outcome::Connect(Err(ConnectError::SetupFailed(Failure::NotImplemented)))
    );
    assert_eq!(world.store, None);
    assert_eq!(session.manager(), None);
}

#[test]
fn register_is_not_implemented_when_the_number_is_not_set() {
    let mut world = world();
    world.store_sets = false;
    world.texts.push_back(entered("+15551234567"));
    let mut session = SigChat::new(None, false);
    let config = Config::new(host("chat.example.org"), ServiceEnvironment::Staging);

    let first = session.account_register(&config);
    let outcome = drive(&mut session, first, &mut world);

    assert_eq!(outcome, Outcome::Setup(SetupOutcome::Failed(Failure::NotImplemented)));
    assert_eq!(world.store, Some(account("chat.example.org")));
    assert_eq!(session.manager(), None);
}

#[test]
fn register_asks_for_no_account_without_a_number() {
    let mut world = world();
    world.texts.push_back(entered(""));
    let mut session = SigChat::new(None, false);
    let config = Config::new(host("chat.example.org"), ServiceEnvironment::Staging);

    let first = session.account_register(&config);
    let outcome = drive(&mut session, first, &mut world);

    assert_eq!(outcome, Outcome::Setup(SetupOutcome::Failed(Failure::NotImplemented)));
    assert_eq!(asked(&world), vec!["probe chat.example.org true", "prompt PhoneNumber"]);
    assert_eq!(world.store, None);
}

// ---------------------------------------------------------------------
// The network wait.
// ---------------------------------------------------------------------

#[test]
fn hosted_mode_asks_and_polls_nothing() {
    let mut session = SigChat::new(None, true);
    let step = session.ensure_network(10);
    assert_eq!(step, Step { effects: vec![], next: Next::Done(Outcome::Network(true)) });
    assert!(session.is_idle());
    let step = session.wifi();
    assert_eq!(step, Step { effects: vec![], next: Next::Done(Outcome::Network(true)) });
}

#[test]
fn a_bound_network_needs_no_prompt() {
    let mut world = world();
    world.bound.push_back(true);
    let mut session = SigChat::new(None, false);

    let first = session.wifi();
    let outcome = drive(&mut session, first, &mut world);

    assert_eq!(outcome, Outcome::Network(true));
    assert_eq!(asked(&world), vec!["status"]);
    assert_eq!(world.effects, vec![]);
}

#[test]
fn the_wait_ends_the_instant_the_network_is_bound() {
    let mut world = world();
    world.bound.extend([false, false, true]);
    world.choices.push_back(Some(0));
    let mut session = SigChat::new(None, false);

    let first = session.ensure_network(5);
    let outcome = drive(&mut session, first, &mut world);

    assert_eq!(outcome, Outcome::Network(true));
    assert_eq!(
        asked(&world),
        vec![
            "status",
            "choose ConnectWifi",
            "associate",
            "sleep",
            "status",
            "sleep",
            "status",
        ]
    );
    assert_eq!(world.slept, 2000);
    assert_eq!(
        world.effects,
        vec![
            Effect::ProgressStart { first: 0, last: 5, current: 0 },
            Effect::ProgressUpdate(0),
            Effect::ProgressUpdate(1),
            Effect::ProgressFinish,
        ]
    );
}

#[test]
fn the_wait_polls_timeout_times_and_asks_again() {
    for timeout in [1u32, 2, 3, 10] {
        let mut world = world();
        world.choices.extend([Some(0), Some(0), Some(1)]);
        let mut session = SigChat::new(None, false);

        let first = session.ensure_network(timeout);
        let outcome = drive(&mut session, first, &mut world);

        assert_eq!(outcome, Outcome::Network(false));
        assert_eq!(world.polls, 1 + 2 * timeout);
        assert_eq!(world.slept, 2 * timeout * 1000);
        let prompts = world.asked.iter().filter(|line| *line == "choose ConnectWifi").count();
        assert_eq!(prompts, 3);
    }
}

#[test]
fn the_built_in_timeout_is_ten_ticks() {
    let mut world = world();
    world.choices.extend([Some(0), Some(1)]);
    let mut session = SigChat::new(None, false);

    let first = session.wifi();
    let outcome = drive(&mut session, first, &mut world);

    assert_eq!(outcome, Outcome::Network(false));
    assert_eq!(world.polls, 11);
    assert_eq!(world.slept, 10_000);
    let mut progress = vec![Effect::ProgressStart { first: 0, last: 10, current: 0 }];
    progress.extend((0..10).map(Effect::ProgressUpdate));
    progress.push(Effect::ProgressFinish);
    assert_eq!(world.effects, progress);
}

#[test]
fn a_wait_of_no_ticks_asks_again_at_once() {
    let mut world = world();
    world.choices.extend([Some(0), Some(1)]);
    let mut session = SigChat::new(None, false);

    let first = session.ensure_network(0);
    let outcome = drive(&mut session, first, &mut world);

    assert_eq!(outcome, Outcome::Network(false));
    assert_eq!(
        asked(&world),
        vec!["status", "choose ConnectWifi", "associate", "choose ConnectWifi"]
    );
    assert_eq!(world.slept, 0);
}

#[test]
fn a_failed_association_goes_back_to_the_operator() {
    let mut world = world();
    world.associates = false;
    world.choices.extend([Some(0), Some(1)]);
    let mut session = SigChat::new(None, false);

    let first = session.ensure_network(3);
    let outcome = drive(&mut session, first, &mut world);

    assert_eq!(outcome, Outcome::Network(false));
    assert_eq!(
        asked(&world),
        vec!["status", "choose ConnectWifi", "associate", "choose ConnectWifi"]
    );
    assert_eq!(world.effects, vec![]);
}

#[test]
fn a_failed_wifi_prompt_counts_as_no() {
    let mut world = world();
    world.choices.push_back(None);
    let mut session = SigChat::new(None, false);

    let first = session.wifi();
    let outcome = drive(&mut session, first, &mut world);

    assert_eq!(outcome, Outcome::Network(false));
    assert_eq!(asked(&world), vec!["status", "choose ConnectWifi"]);
}

#[test]
fn an_answer_of_another_kind_counts_as_a_failure() {
    let mut session = SigChat::new(None, false);
    let step = session.wifi();
    assert_eq!(step.next, Next::Ask(Request::NetworkStatus));
    let step = session.advance(Event::Elapsed);
    assert_eq!(step.next, Next::Ask(Request::Choose(Menu::ConnectWifi)));
    let step = session.advance(Event::Trusted(true));
    assert_eq!(step.next, Next::Done(Outcome::Network(false)));
}

#[test]
fn an_event_changes_nothing_when_nothing_is_under_way() {
    let mut session = SigChat::new(Some(account("example.org")), false);
    let before = SigChat::new(Some(account("example.org")), false);
    let step = session.advance(Event::Bound(true));
    assert_eq!(step, Step { effects: vec![], next: Next::Idle });
    assert_eq!(session, before);
}

// ---------------------------------------------------------------------
// The connect cycle.
// ---------------------------------------------------------------------

#[test]
fn connect_with_a_stored_account_runs_no_setup() {
    let mut world = world();
    world.bound.push_back(true);
    world.store = Some(account("example.org"));
    let mut session = SigChat::new(None, false);

    let outcome = connect(&mut session, &mut world);

    assert_eq!(outcome, Outcome::Connect(Ok(true)));
    assert_eq!(asked(&world), vec!["status", "read"]);
    assert_eq!(
        world.effects,
        vec![
            Effect::Status(Status::Connecting),
            Effect::Busy(true),
            Effect::Install(Manager::new(account("example.org"), TrustMode::OnFirstUse)),
            Effect::Busy(false),
            Effect::Status(Status::Online),
        ]
    );
    assert_eq!(
        session.manager(),
        Some(&Manager::new(account("example.org"), TrustMode::OnFirstUse))
    );
}

#[test]
fn connect_twice_reads_and_asks_nothing_the_second_time() {
    let mut world = world();
    world.bound.extend([true, true]);
    world.choices.push_back(Some(0));
    world.texts.push_back(entered("chat.example.org"));
    world.texts.push_back(entered("xous"));
    let mut session = SigChat::new(None, false);
    assert_eq!(connect(&mut session, &mut world), Outcome::Connect(Ok(true)));
    let manager = Manager::new(account("chat.example.org"), TrustMode::OnFirstUse);
    assert_eq!(session.manager(), Some(&manager));
    let (reads, writes) = (world.store_reads, world.store_writes);
    world.asked.clear();
    world.effects.clear();

    let outcome = connect(&mut session, &mut world);

    assert_eq!(outcome, Outcome::Connect(Ok(true)));
    assert_eq!(asked(&world), vec!["status"]);
    assert_eq!(world.effects, vec![Effect::Status(Status::Online)]);
    assert_eq!((world.store_reads, world.store_writes), (reads, writes));
    assert_eq!(session.manager(), Some(&manager));
}

#[test]
fn connect_in_hosted_mode_with_a_manager_is_one_step() {
    let mut session = SigChat::new(Some(account("example.org")), true);
    let step = session.connect();
    assert_eq!(
        step,
        Step {
            effects: vec![Effect::Status(Status::Online)],
            next: Next::Done(Outcome::Connect(Ok(true))),
        }
    );
}

#[test]
fn connect_reports_an_aborted_setup_as_an_error() {
    let mut world = world();
    world.choices.push_back(Some(2));
    let mut session = SigChat::new(None, true);

    let outcome = connect(&mut session, &mut world);

    assert_eq!(outcome, Outcome::Connect(Err(ConnectError::SetupAborted)));
    assert_eq!(asked(&world), vec!["read", "choose AccountSetup"]);
    assert_eq!(world.store_writes, 0);
}

// ---------------------------------------------------------------------
// Account setup.
// ---------------------------------------------------------------------

#[test]
fn setup_fails_on_a_selection_that_names_no_choice() {
    let mut world = world();
    world.choices.push_back(Some(3));
    let mut session = SigChat::new(None, true);
    let first = session.account_setup();
    let outcome = drive(&mut session, first, &mut world);
    assert_eq!(outcome, Outcome::Setup(SetupOutcome::Failed(Failure::InvalidChoice)));
    assert_eq!(asked(&world), vec!["choose AccountSetup"]);
}

#[test]
fn setup_fails_when_the_choice_cannot_be_presented() {
    let mut world = world();
    world.choices.push_back(None);
    let mut session = SigChat::new(None, true);
    let outcome = connect(&mut session, &mut world);
    assert_eq!(
        outcome,
        Outcome::Connect(Err(ConnectError::SetupFailed(Failure::PromptFailed)))
    );
    assert_eq!(asked(&world), vec!["read", "choose AccountSetup"]);
}

#[test]
fn an_invalid_host_is_asked_for_again() {
    let mut world = world();
    world.trusted = false;
    world.choices.push_back(Some(0));
    world.texts.extend([
        entered("192.168.0.1"),
        entered("not a host"),
        entered("Chat.Example.ORG"),
    ]);
    let mut session = SigChat::new(None, true);
    let first = session.account_setup();
    let outcome = drive(&mut session, first, &mut world);

    assert_eq!(outcome, Outcome::Setup(SetupOutcome::Failed(Failure::UntrustedHost)));
    assert_eq!(
        asked(&world),
        vec![
            "choose AccountSetup",
            "prompt Host",
            "prompt Host",
            "prompt Host",
            "probe chat.example.org true",
        ]
    );
    assert_eq!(
        world.effects,
        vec![
            Effect::Notify(Notice::InvalidHost),
            Effect::Notify(Notice::InvalidHost),
            Effect::Status(Status::Probing),
            Effect::Busy(true),
            Effect::Notify(Notice::SetupAborted),
            Effect::Busy(false),
        ]
    );
}

#[test]
fn a_failed_host_prompt_falls_back_on_the_built_in_host() {
    let mut world = world();
    world.trusted = false;
    world.choices.push_back(Some(1));
    world.texts.push_back(None);
    let mut session = SigChat::new(None, true);
    let first = session.account_setup();
    let outcome = drive(&mut session, first, &mut world);

    assert_eq!(outcome, Outcome::Setup(SetupOutcome::Failed(Failure::UntrustedHost)));
    assert_eq!(
        asked(&world),
        vec!["choose AccountSetup", "prompt Host", "probe signal.org true"]
    );
}

#[test]
fn an_untrusted_host_leaves_the_store_untouched() {
    for choice in [0u32, 1] {
        let mut world = world();
        world.bound.push_back(true);
        world.trusted = false;
        world.choices.push_back(Some(choice));
        world.texts.push_back(entered("chat.example.org"));
        let mut session = SigChat::new(None, false);

        let outcome = connect(&mut session, &mut world);

        assert_eq!(
            outcome,
            Outcome::Connect(Err(ConnectError::SetupFailed(Failure::UntrustedHost)))
        );
        assert_eq!(world.store, None);
        assert_eq!(world.store_writes, 0);
        assert_eq!(session.manager(), None);
        assert_eq!(
            asked(&world),
            vec![
                "status",
                "read",
                "choose AccountSetup",
                "prompt Host",
                "probe chat.example.org true"
            ]
        );
    }
}

#[test]
fn account_link_probes_before_it_creates() {
    let mut world = world();
    world.trusted = false;
    let mut session = SigChat::new(None, false);
    let config = Config::new(host("chat.example.org"), ServiceEnvironment::Live);

    let first = session.account_link(&config);
    assert_eq!(
        first,
        Step {
            effects: vec![Effect::Status(Status::Probing), Effect::Busy(true)],
            next: Next::Ask(Request::Probe {
                host: host("chat.example.org"),
                accept_first_use: true
            }),
        }
    );
    let outcome = drive(&mut session, first, &mut world);

    assert_eq!(outcome, Outcome::Setup(SetupOutcome::Failed(Failure::UntrustedHost)));
    assert_eq!(world.store, None);
    assert_eq!(world.store_writes, 0);
}

#[test]
fn account_link_returns_the_record_that_the_store_holds() {
    let mut world = world();
    world.texts.push_back(entered("kitchen tablet"));
    let mut session = SigChat::new(None, false);
    let config = Config::new(host("chat.example.org"), ServiceEnvironment::Live);

    let first = session.account_link(&config);
    let outcome = drive(&mut session, first, &mut world);

    let stored = Account::new(host("chat.example.org"), ServiceEnvironment::Live);
    assert_eq!(outcome, Outcome::Setup(SetupOutcome::Succeeded(stored.clone())));
    assert_eq!(world.store, Some(stored));
    assert_eq!(world.linked_as, vec!["kitchen tablet".to_string()]);
    assert_eq!(session.manager(), None);
}

#[test]
fn a_failed_name_prompt_links_under_the_built_in_name() {
    let mut world = world();
    world.texts.push_back(None);
    let mut session = SigChat::new(None, false);
    let config = Config::new(host("chat.example.org"), ServiceEnvironment::Staging);

    let first = session.account_link(&config);
    let outcome = drive(&mut session, first, &mut world);

    assert_eq!(outcome, Outcome::Setup(SetupOutcome::Succeeded(account("chat.example.org"))));
    assert_eq!(world.linked_as, vec!["xous".to_string()]);
}

#[test]
fn a_link_error_rolls_the_account_back() {
    let mut world = world();
    world.bound.push_back(true);
    world.link = Err("connection reset".to_string());
    world.choices.push_back(Some(0));
    world.texts.push_back(entered("chat.example.org"));
    world.texts.push_back(entered("xous"));
    let mut session = SigChat::new(None, false);

    let outcome = connect(&mut session, &mut world);

    assert_eq!(outcome, Outcome::Connect(Err(ConnectError::SetupFailed(Failure::LinkFailed))));
    assert_eq!(world.store, None);
    assert_eq!(answer(&mut world, Request::ReadAccount), Event::Account(None));
    assert_eq!(
        asked(&world)[5..9],
        ["create chat.example.org Staging", "prompt DeviceName", "link xous", "delete"]
    );
    assert_eq!(
        world.effects[7..],
        [Effect::Busy(false), Effect::Notify(Notice::Message("connection reset".to_string()))]
    );
    assert_eq!(session.manager(), None);
}

#[test]
fn a_declined_link_leaves_the_account_in_place() {
    let mut world = world();
    world.link = Ok(false);
    world.texts.push_back(entered("xous"));
    let mut session = SigChat::new(None, false);
    let config = Config::new(host("chat.example.org"), ServiceEnvironment::Staging);

    let first = session.account_link(&config);
    let outcome = drive(&mut session, first, &mut world);

    assert_eq!(outcome, Outcome::Setup(SetupOutcome::Failed(Failure::LinkDeclined)));
    assert_eq!(world.store, Some(account("chat.example.org")));
    assert_eq!(world.asked.last().map(String::as_str), Some("link xous"));
    assert_eq!(world.effects.last(), Some(&Effect::Busy(false)));
}

#[test]
fn link_fails_where_the_store_holds_an_account_already() {
    let mut world = world();
    world.store = Some(account("other.example"));
    let mut session = SigChat::new(None, false);
    let config = Config::new(host("chat.example.org"), ServiceEnvironment::Staging);

    let first = session.account_link(&config);
    let outcome = drive(&mut session, first, &mut world);

    assert_eq!(outcome, Outcome::Setup(SetupOutcome::Failed(Failure::CreateFailed)));
    assert_eq!(world.store, Some(account("other.example")));
    assert_eq!(
        world.effects,
        vec![
            Effect::Status(Status::Probing),
            Effect::Busy(true),
            Effect::Busy(false),
            Effect::Status(Status::Initializing),
            Effect::Busy(true),
            Effect::Busy(false),
            Effect::Notify(Notice::AccountFailed),
        ]
    );
}

#[test]
fn link_fails_where_the_linked_account_cannot_be_read() {
    let mut session = SigChat::new(None, false);
    let config = Config::new(host("chat.example.org"), ServiceEnvironment::Staging);
    let step = session.account_link(&config);
    assert!(matches!(step.next, Next::Ask(Request::Probe { .. })));
    let step = session.advance(Event::Trusted(true));
    assert!(matches!(step.next, Next::Ask(Request::CreateAccount { .. })));
    let step = session.advance(Event::Account(Some(account("chat.example.org"))));
    assert_eq!(step.next, Next::Ask(Request::Prompt(Field::DeviceName)));
    let step = session.advance(Event::Text(Some("xous".to_string())));
    assert_eq!(
        step.next,
        Next::Ask(Request::Link {
            account: account("chat.example.org"),
            trust_mode: TrustMode::OnFirstUse,
            device_name: "xous".to_string(),
        })
    );
    let step = session.advance(Event::Linked(Ok(true)));
    assert_eq!(step.next, Next::Ask(Request::ReadAccount));
    let step = session.advance(Event::Account(None));
    assert_eq!(
        step.next,
        Next::Done(Outcome::Setup(SetupOutcome::Failed(Failure::ReadFailed)))
    );
    assert!(session.is_idle());
}

#[test]
fn an_answer_of_another_kind_to_a_link_rolls_back() {
    let mut session = SigChat::new(None, false);
    let config = Config::new(host("chat.example.org"), ServiceEnvironment::Staging);
    session.account_link(&config);
    session.advance(Event::Trusted(true));
    session.advance(Event::Account(Some(account("chat.example.org"))));
    session.advance(Event::Text(None));
    let step = session.advance(Event::Elapsed);
    assert_eq!(step, Step { effects: vec![], next: Next::Ask(Request::DeleteAccount) });
    let step = session.advance(Event::Stored(false));
    assert_eq!(
        step,
        Step {
            effects: vec![Effect::Busy(false), Effect::Notify(Notice::Message(String::new()))],
            next: Next::Done(Outcome::Setup(SetupOutcome::Failed(Failure::LinkFailed))),
        }
    );
}

#[test]
fn the_busy_indicator_is_on_while_the_probe_is_out() {
    let mut session = SigChat::new(None, false);
    let config = Config::new(host("chat.example.org"), ServiceEnvironment::Staging);
    let step = session.account_register(&config);
    assert!(busy(&step.effects));
    let step = session.advance(Event::Trusted(true));
    assert_eq!(
        step,
        Step {
            effects: vec![Effect::Busy(false), Effect::Notify(Notice::RegistrationUnavailable)],
            next: Next::Ask(Request::Prompt(Field::PhoneNumber)),
        }
    );
}

#[test]
fn the_progress_indicator_is_closed_when_the_wait_runs_out() {
    let mut session = SigChat::new(None, false);
    session.ensure_network(1);
    session.advance(Event::Bound(false));
    session.advance(Event::Chosen(Some(0)));
    let step = session.advance(Event::Associated(true));
    assert_eq!(
        step,
        Step {
            effects: vec![Effect::ProgressStart { first: 0, last: 1, current: 0 }],
            next: Next::Ask(Request::Sleep { millis: 1000 }),
        }
    );
    let step = session.advance(Event::Elapsed);
    assert_eq!(
        step,
        Step { effects: vec![Effect::ProgressUpdate(0)], next: Next::Ask(Request::NetworkStatus) }
    );
    let step = session.advance(Event::Bound(false));
    assert_eq!(
        step,
        Step {
            effects: vec![Effect::ProgressFinish],
            next: Next::Ask(Request::Choose(Menu::ConnectWifi)),
        }
    );
}

#[test]
fn a_registration_leaves_the_manager_as_it_was() {
    let mut world = world();
    world.texts.push_back(entered("+15551234567"));
    let mut session = SigChat::new(Some(account("example.org")), false);
    let before = Manager::new(account("example.org"), TrustMode::OnFirstUse);
    let config = Config::new(host("chat.example.org"), ServiceEnvironment::Staging);

    let first = session.account_register(&config);
    let outcome = drive(&mut session, first, &mut world);

    assert_eq!(outcome, Outcome::Setup(SetupOutcome::Failed(Failure::NotImplemented)));
    assert_eq!(session.manager(), Some(&before));
    assert!(!world.effects.iter().any(|effect| matches!(effect, Effect::Install(_))));
    let mut registered = account("chat.example.org");
    registered.set_number("+15551234567".to_string());
    assert_eq!(world.store, Some(registered));
    assert_eq!(
        asked(&world),
        vec![
            "probe chat.example.org true",
            "prompt PhoneNumber",
            "create chat.example.org Staging",
            "number +15551234567",
        ]
    );
}

#[test]
fn the_answer_on_the_number_ends_the_registration() {
    for stored in [Event::Stored(true), Event::Stored(false), Event::Elapsed] {
        let mut session = SigChat::new(None, false);
        let config = Config::new(host("chat.example.org"), ServiceEnvironment::Staging);
        session.account_register(&config);
        session.advance(Event::Trusted(true));
        session.advance(Event::Text(Some("+15551234567".to_string())));
        let step = session.advance(Event::Account(Some(account("chat.example.org"))));
        assert_eq!(
            step,
            Step {
                effects: vec![],
                next: Next::Ask(Request::SetNumber { number: "+15551234567".to_string() }),
            }
        );
        let step = session.advance(stored);
        assert_eq!(
            step,
            Step {
                effects: vec![],
                next: Next::Done(Outcome::Setup(SetupOutcome::Failed(Failure::NotImplemented))),
            }
        );
        assert_eq!(session.manager(), None);
    }
}

#[test]
fn the_wait_polls_timeout_times_in_every_round() {
    let mut world = world();
    world.choices.extend([Some(0), Some(0), Some(0), Some(0), Some(1)]);
    let mut session = SigChat::new(None, false);

    let first = session.ensure_network(4);
    let outcome = drive(&mut session, first, &mut world);

    assert_eq!(outcome, Outcome::Network(false));
    let associations = world.asked.iter().filter(|line| *line == "associate").count();
    assert_eq!(associations, 4);
    assert_eq!(world.polls, 1 + 4 * 4);
}
