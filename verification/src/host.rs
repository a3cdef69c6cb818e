//! Host names: what the URL host parser makes of an operator's text, and the
//! domain-form endpoint that the rest of the library works with.

use vstd::prelude::*;

verus! {

/// What the host parser made of a text.
#[derive(Debug, PartialEq, Eq)]
pub enum ParsedHost {
    /// A DNS domain name, in the parser's normal form.
    Domain(String),
    /// A bare IPv4 address.
    Ipv4,
    /// A bracketed IPv6 address.
    Ipv6,
    /// Not a host at all.
    Invalid,
}

/// The mathematical value of a [`ParsedHost`].
pub enum ParsedHostView {
    Domain(Seq<char>),
    Ipv4,
    Ipv6,
    Invalid,
}

impl View for ParsedHost {
    type V = ParsedHostView;

    open spec fn view(&self) -> ParsedHostView {
        match self {
            ParsedHost::Domain(name) => ParsedHostView::Domain(name@),
            ParsedHost::Ipv4 => ParsedHostView::Ipv4,
            ParsedHost::Ipv6 => ParsedHostView::Ipv6,
            ParsedHost::Invalid => ParsedHostView::Invalid,
        }
    }
}

/// The result of `url::Host::parse` on `text`: percent-decoding, IDNA
/// mapping and the IPv4/IPv6 forms are the parser's business, so the result
/// is named rather than restated.
pub uninterp spec fn host_parse(text: Seq<char>) -> ParsedHostView;

/// Calls `url::Host::parse`. The contract claims only that the outcome is the
/// parser's, a function of the text alone: a domain with its normalised name,
/// an address of either family without its value, or a rejection.
#[verifier::external_body]
fn parse_host(text: &str) -> (parsed: ParsedHost)
    ensures
        parsed@ == host_parse(text@),
{
    match url::Host::parse(text) {
        Ok(url::Host::Domain(name)) => ParsedHost::Domain(name),
        Ok(url::Host::Ipv4(_)) => ParsedHost::Ipv4,
        Ok(url::Host::Ipv6(_)) => ParsedHost::Ipv6,
        Err(_) => ParsedHost::Invalid,
    }
}

/// The domain name that a parse yields, if it yields one.
pub open spec fn domain_of(parsed: ParsedHostView) -> Option<Seq<char>> {
    match parsed {
        ParsedHostView::Domain(name) => Some(name),
        _ => None,
    }
}

/// Whether `name` is a host in domain form: the domain that some text
/// parses to.
pub open spec fn is_domain(name: Seq<char>) -> bool {
    exists|text: Seq<char>| #[trigger] host_parse(text) == ParsedHostView::Domain(name)
}

impl ParsedHost {
    /// The domain name, if the parse found a domain.
    pub fn domain(self) -> (name: Option<String>)
        ensures
            match domain_of(self@) {
                Some(found) => name matches Some(text) && text@ == found,
                None => name is None,
            },
    {
        match self {
            ParsedHost::Domain(name) => Some(name),
            _ => None,
        }
    }
}

/// The built-in host, offered as the default and used when the prompt fails.
pub const DEFAULT_HOST: &'static str = "signal.org";

/// The name of a remote service in domain form: never a bare address, never
/// a malformed text. There is no way to one but through the parser.
#[derive(Debug, PartialEq, Eq)]
pub struct HostEndpoint {
    name: String,
}

impl View for HostEndpoint {
    type V = Seq<char>;

    closed spec fn view(&self) -> Seq<char> {
        self.name@
    }
}

impl Clone for HostEndpoint {
    fn clone(&self) -> (copy: Self)
        ensures
            copy == *self,
    {
        proof {
            use_type_invariant(self);
        }
        HostEndpoint { name: self.name.clone() }
    }
}

impl HostEndpoint {
    #[verifier::type_invariant]
    spec fn domain_form(self) -> bool {
        is_domain(self.name@)
    }

    /// Parses `text` as a host and keeps it if it is a domain.
    pub fn parse(text: &str) -> (host: Option<HostEndpoint>)
        ensures
            match domain_of(host_parse(text@)) {
                Some(name) => host matches Some(h) && h@ == name,
                None => host is None,
            },
    {
        let parsed = parse_host(text);
        assert(parsed@ == host_parse(text@));
        match parsed.domain() {
            Some(name) => Some(HostEndpoint { name }),
            None => None,
        }
    }

    /// The domain name.
    pub fn name(&self) -> (name: &str)
        ensures
            name@ == self@,
            is_domain(self@),
    {
        proof {
            use_type_invariant(self);
        }
        self.name.as_str()
    }
}

} // verus!
