use sigchat::{
    Account, Choice, Config, ConnectError, Effect, Failure, Field, HostEndpoint, Manager, Menu,
    ParsedHost, ServiceEnvironment, SigChat, TrustMode, DEFAULT_DEVICE_NAME, DEFAULT_HOST,
    SIGCHAT_ACCOUNT, SIGCHAT_DIALOGUE, TICK_MILLIS, WIFI_TIMEOUT,
};

fn host(text: &str) -> HostEndpoint {
    HostEndpoint::parse(text).expect("a domain")
}

#[test]
fn parse_keeps_a_domain() {
    assert_eq!(host("chat.example.org").name(), "chat.example.org");
}

#[test]
fn parse_normalises_the_domain() {
    assert_eq!(host("Chat.EXAMPLE.org").name(), "chat.example.org");
    assert_eq!(host("b%C3%BCcher.example").name(), "xn--bcher-kva.example");
}

#[test]
fn parse_rejects_addresses() {
    assert_eq!(HostEndpoint::parse("192.168.1.1"), None);
    assert_eq!(HostEndpoint::parse("[::1]"), None);
    assert_eq!(HostEndpoint::parse("0x7f.1"), None);
}

#[test]
fn parse_rejects_malformed_text() {
    assert_eq!(HostEndpoint::parse(""), None);
    assert_eq!(HostEndpoint::parse("not a host"), None);
    assert_eq!(HostEndpoint::parse("[::1"), None);
    assert_eq!(HostEndpoint::parse("a/b"), None);
}

#[test]
fn parse_accepts_the_built_in_host() {
    assert_eq!(host(DEFAULT_HOST).name(), "signal.org");
}

#[test]
fn a_parse_yields_a_name_for_a_domain_only() {
    let domain = ParsedHost::Domain("example.org".to_string());
    assert_eq!(domain.domain(), Some("example.org".to_string()));
    assert_eq!(ParsedHost::Ipv4.domain(), None);
    assert_eq!(ParsedHost::Ipv6.domain(), None);
    assert_eq!(ParsedHost::Invalid.domain(), None);
}

#[test]
fn host_clone_is_equal() {
    let first = host("example.org");
    assert_eq!(first.clone(), first);
}

#[test]
fn config_holds_host_and_environment() {
    let config = Config::new(host("chat.example.org"), ServiceEnvironment::Staging);
    assert_eq!(config.host().name(), "chat.example.org");
    assert_eq!(config.service_environment(), ServiceEnvironment::Staging);
    assert_eq!(config.clone(), config);
}

#[test]
fn new_account_has_no_number() {
    let account = Account::new(host("example.org"), ServiceEnvironment::Live);
    assert_eq!(account.host().name(), "example.org");
    assert_eq!(account.service_environment(), ServiceEnvironment::Live);
    assert_eq!(account.number(), None);
}

#[test]
fn set_number_changes_the_number_only() {
    let mut account = Account::new(host("example.org"), ServiceEnvironment::Staging);
    account.set_number("+15551234567".to_string());
    assert_eq!(account.number(), Some("+15551234567"));
    assert_eq!(account.host().name(), "example.org");
    assert_eq!(account.service_environment(), ServiceEnvironment::Staging);
    assert_eq!(account.clone(), account);
}

#[test]
fn manager_holds_what_it_was_built_from() {
    let account = Account::new(host("example.org"), ServiceEnvironment::Staging);
    let manager = Manager::new(account.clone(), TrustMode::OnFirstUse);
    assert_eq!(manager.account(), &account);
    assert_eq!(manager.trust_mode(), TrustMode::OnFirstUse);
}

#[test]
fn failure_messages() {
    assert_eq!(Failure::InvalidChoice.message(), "invalid radio index");
    assert_eq!(
        Failure::PromptFailed.message(),
        "failed to present account setup radio buttons"
    );
    assert_eq!(Failure::UntrustedHost.message(), "failed to trust host certificate");
    assert_eq!(Failure::CreateFailed.message(), "failed to create new Account in pddb");
    assert_eq!(Failure::LinkDeclined.message(), "failed to link Signal Account");
    assert_eq!(Failure::LinkFailed.message(), "error while linking Signal Account");
    assert_eq!(Failure::ReadFailed.message(), "failed to read linked Account from pddb");
    assert_eq!(Failure::NotImplemented.message(), "not implemented");
}

#[test]
fn connect_error_messages() {
    assert_eq!(ConnectError::SetupAborted.message(), "account setup aborted");
    assert_eq!(
        ConnectError::SetupFailed(Failure::NotImplemented).message(),
        "not implemented"
    );
    assert_eq!(
        ConnectError::SetupFailed(Failure::UntrustedHost).message(),
        "failed to trust host certificate"
    );
}

#[test]
fn menus_list_their_lines_in_order() {
    assert_eq!(Menu::ConnectWifi.options(), vec![Choice::Yes, Choice::No]);
    assert_eq!(
        Menu::AccountSetup.options(),
        vec![Choice::Link, Choice::Register, Choice::Offline]
    );
}

#[test]
fn prompts_offer_the_built_in_texts() {
    assert_eq!(Field::Host.suggestion(), Some(DEFAULT_HOST));
    assert_eq!(Field::DeviceName.suggestion(), Some(DEFAULT_DEVICE_NAME));
    assert_eq!(Field::PhoneNumber.suggestion(), None);
}

#[test]
fn constants() {
    assert_eq!(WIFI_TIMEOUT, 10);
    assert_eq!(TICK_MILLIS, 1000);
    assert_eq!(SIGCHAT_ACCOUNT, "sigchat.account");
    assert_eq!(SIGCHAT_DIALOGUE, "sigchat.dialogue");
}

#[test]
fn new_session_is_idle_without_manager() {
    let session = SigChat::new(None, false);
    assert!(session.is_idle());
    assert!(!session.hosted());
    assert_eq!(session.manager(), None);
}

#[test]
fn new_session_builds_the_manager_from_the_stored_account() {
    let account = Account::new(host("example.org"), ServiceEnvironment::Staging);
    let session = SigChat::new(Some(account.clone()), true);
    assert!(session.is_idle());
    assert!(session.hosted());
    let manager = session.manager().expect("a manager");
    assert_eq!(manager.account(), &account);
    assert_eq!(manager.trust_mode(), TrustMode::OnFirstUse);
}

#[test]
fn presentation_signals() {
    let session = SigChat::new(None, false);
    assert_eq!(session.redraw(), Effect::Redraw);
    assert_eq!(session.help(), Effect::Help);
    assert_eq!(session.dialogue_set(None), Effect::Dialogue(None));
    assert_eq!(
        session.dialogue_set(Some("kitchen")),
        Effect::Dialogue(Some("kitchen".to_string()))
    );
}
