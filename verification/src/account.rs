//! The identity data that setup produces: the service configuration, the
//! persisted account record, and what a live account manager is built from.

use crate::host::HostEndpoint;
use vstd::prelude::*;

verus! {

/// Which deployment of the service an account belongs to.
#[derive(Clone, Copy, Debug, PartialEq, Eq)]
pub enum ServiceEnvironment {
    Live,
    Staging,
}

/// How the certificates of a host are judged for the life of a session.
#[derive(Clone, Copy, Debug, PartialEq, Eq)]
pub enum TrustMode {
    /// A host probed as trusted stays trusted; it is not probed again.
    OnFirstUse,
}

/// The host and environment that one run of a setup flow works with.
#[derive(Debug, PartialEq, Eq)]
pub struct Config {
    host: HostEndpoint,
    service_environment: ServiceEnvironment,
}

/// The mathematical value of a [`Config`].
pub struct ConfigView {
    pub host: Seq<char>,
    pub service_environment: ServiceEnvironment,
}

impl View for Config {
    type V = ConfigView;

    closed spec fn view(&self) -> ConfigView {
        ConfigView { host: self.host@, service_environment: self.service_environment }
    }
}

impl Clone for Config {
    fn clone(&self) -> (copy: Self)
        ensures
            copy == *self,
    {
        Config { host: self.host.clone(), service_environment: self.service_environment }
    }
}

impl Config {
    pub fn new(host: HostEndpoint, service_environment: ServiceEnvironment) -> (config: Config)
        ensures
            config@ == (ConfigView { host: host@, service_environment }),
    {
        Config { host, service_environment }
    }

    pub fn host(&self) -> (host: &HostEndpoint)
        ensures
            host@ == self@.host,
    {
        &self.host
    }

    pub fn service_environment(&self) -> (environment: ServiceEnvironment)
        ensures
            environment == self@.service_environment,
    {
        self.service_environment
    }
}

/// The persisted identity record, as far as this library reads it. The
/// credential material stays with the store.
#[derive(Debug, PartialEq, Eq)]
pub struct Account {
    host: HostEndpoint,
    service_environment: ServiceEnvironment,
    number: Option<String>,
}

/// The mathematical value of an [`Account`].
pub struct AccountView {
    pub host: Seq<char>,
    pub service_environment: ServiceEnvironment,
    pub number: Option<Seq<char>>,
}

impl View for Account {
    type V = AccountView;

    closed spec fn view(&self) -> AccountView {
        AccountView {
            host: self.host@,
            service_environment: self.service_environment,
            number: match self.number {
                Some(number) => Some(number@),
                None => None,
            },
        }
    }
}

impl Clone for Account {
    fn clone(&self) -> (copy: Self)
        ensures
            copy == *self,
    {
        Account {
            host: self.host.clone(),
            service_environment: self.service_environment,
            number: match &self.number {
                Some(number) => Some(number.clone()),
                None => None,
            },
        }
    }
}

impl Account {
    /// A bare record for `host` in `service_environment`, without a phone
    /// number.
    pub fn new(host: HostEndpoint, service_environment: ServiceEnvironment) -> (account: Account)
        ensures
            account@ == (AccountView { host: host@, service_environment, number: None }),
    {
        Account { host, service_environment, number: None }
    }

    pub fn host(&self) -> (host: &HostEndpoint)
        ensures
            host@ == self@.host,
    {
        &self.host
    }

    pub fn service_environment(&self) -> (environment: ServiceEnvironment)
        ensures
            environment == self@.service_environment,
    {
        self.service_environment
    }

    pub fn number(&self) -> (number: Option<&str>)
        ensures
            match self@.number {
                Some(digits) => number matches Some(text) && text@ == digits,
                None => number is None,
            },
    {
        match &self.number {
            Some(number) => Some(number.as_str()),
            None => None,
        }
    }

    /// Records the phone number that the account is registered under.
    pub fn set_number(&mut self, number: String)
        ensures
            final(self)@ == (AccountView { number: Some(number@), ..old(self)@ }),
    {
        self.number = Some(number);
    }
}

/// What the live account manager is built from. The manager itself, and
/// the protocol session it runs, live outside this library.
#[derive(Debug, PartialEq, Eq)]
pub struct Manager {
    account: Account,
    trust_mode: TrustMode,
}

/// The mathematical value of a [`Manager`].
pub struct ManagerView {
    pub account: AccountView,
    pub trust_mode: TrustMode,
}

impl View for Manager {
    type V = ManagerView;

    closed spec fn view(&self) -> ManagerView {
        ManagerView { account: self.account@, trust_mode: self.trust_mode }
    }
}

impl Manager {
    pub fn new(account: Account, trust_mode: TrustMode) -> (manager: Manager)
        ensures
            manager@ == (ManagerView { account: account@, trust_mode }),
    {
        Manager { account, trust_mode }
    }

    pub fn account(&self) -> (account: &Account)
        ensures
            account@ == self@.account,
    {
        &self.account
    }

    pub fn trust_mode(&self) -> (trust_mode: TrustMode)
        ensures
            trust_mode == self@.trust_mode,
    {
        self.trust_mode
    }
}

} // verus!
