//! Host addresses: a domain name or an IP address, each with an optional port.

use crate::text::host_with_port;
use crate::text::join_host_port;
use vstd::prelude::*;
use vstd::string::*;

verus! {

/// Why a text is no domain name with an optional port.
#[derive(Clone, Copy, Debug, PartialEq, Eq, Structural)]
pub enum DomainWithPortParseError {
    /// The port is not a number in the range of a port.
    InvalidPort,
    /// There is no host before the port.
    EmptyHost,
    /// The host is no domain name.
    InvalidDomainCharacter,
}

/// The mathematical value of a `DomainWithPort`.
pub struct DomainWithPortView {
    pub domain: Seq<char>,
    pub port: Option<u16>,
}

/// What `qiniu_sdk::http_client::DomainWithPort::from_str` returns on `s`:
/// the domain and the port of the parsed value, or the error.
pub uninterp spec fn domain_with_port_from_str(s: Seq<char>) -> Result<
    (Seq<char>, Option<u16>),
    DomainWithPortParseError,
>;

/// The text that spells a domain and a port: the domain alone, or `domain:port`.
pub open spec fn domain_text(v: DomainWithPortView) -> Seq<char> {
    match v.port {
        Some(p) => host_with_port(v.domain, p),
        None => v.domain,
    }
}

/// `s` is the text of `v`, or `v` has no port and `s` names port 0, which
/// stands for no port.
pub open spec fn spells_domain(s: Seq<char>, v: DomainWithPortView) -> bool {
    &&& v.port != Some(0u16)
    &&& (s == domain_text(v) || (v.port is None && s == host_with_port(v.domain, 0)))
}

/// `s` is accepted as a domain with an optional port, and `v` is its value.
pub open spec fn parses_to_domain(s: Seq<char>, v: DomainWithPortView) -> bool {
    &&& domain_with_port_from_str(s) == Ok::<
        (Seq<char>, Option<u16>),
        DomainWithPortParseError,
    >((v.domain, v.port))
    &&& spells_domain(s, v)
}

/// Some text is accepted with the value `v`.
pub open spec fn valid_domain(v: DomainWithPortView) -> bool {
    exists|s: Seq<char>| parses_to_domain(s, v)
}

/// The text handed to the parser for a host and an optional port.
pub open spec fn composed(host: Seq<char>, port: Option<u16>) -> Seq<char> {
    match port {
        Some(p) => host_with_port(host, p),
        None => host,
    }
}

/// A domain name with an optional port.
#[derive(Debug)]
pub struct DomainWithPort {
    domain: String,
    port: Option<u16>,
}

impl View for DomainWithPort {
    type V = DomainWithPortView;

    closed spec fn view(&self) -> DomainWithPortView {
        DomainWithPortView { domain: self.domain@, port: self.port }
    }
}

/// Calls `qiniu_sdk::http_client::DomainWithPort::from_str` and takes the
/// parsed value apart. The result is the named result of that function. On
/// success the function has compared its input with the domain, or with the
/// domain, a colon and the port in decimal, so the input spells the value; a
/// port of 0 is stored as no port.
#[verifier::external_body]
fn parse_domain_with_port(s: &str) -> (r: Result<(String, Option<u16>), DomainWithPortParseError>)
    ensures
        match r {
            Ok(v) => parses_to_domain(s@, DomainWithPortView { domain: v.0@, port: v.1 }),
            Err(e) => domain_with_port_from_str(s@) == Err::<
                (Seq<char>, Option<u16>),
                DomainWithPortParseError,
            >(e),
        },
{
    match s.parse::<qiniu_sdk::http_client::DomainWithPort>() {
        Ok(parsed) => {
            let (domain, port) = parsed.into_domain_and_port();
            Ok((domain, port.map(|p| p.get())))
        },
        Err(qiniu_sdk::http_client::DomainWithPortParseError::InvalidPort) => Err(
            DomainWithPortParseError::InvalidPort,
        ),
        Err(qiniu_sdk::http_client::DomainWithPortParseError::EmptyHost) => Err(
            DomainWithPortParseError::EmptyHost,
        ),
        Err(_) => Err(DomainWithPortParseError::InvalidDomainCharacter),
    }
}

impl DomainWithPort {
    #[verifier::type_invariant]
    spec fn inv(self) -> bool {
        valid_domain(self@)
    }

    /// Parses `domain`, or `domain:port` where a port is given.
    pub fn new(domain: String, port: Option<u16>) -> (r: Result<Self, DomainWithPortParseError>)
        ensures
            match r {
                Ok(v) => parses_to_domain(composed(domain@, port), v@),
                Err(e) => domain_with_port_from_str(composed(domain@, port)) == Err::<
                    (Seq<char>, Option<u16>),
                    DomainWithPortParseError,
                >(e),
            },
    {
        match port {
            Some(p) => {
                let text = join_host_port(domain.as_str(), p);
                Self::parse(text.as_str())
            },
            None => Self::parse(domain.as_str()),
        }
    }

    /// Parses the text of a domain with an optional port.
    pub fn parse(s: &str) -> (r: Result<Self, DomainWithPortParseError>)
        ensures
            match r {
                Ok(v) => parses_to_domain(s@, v@),
                Err(e) => domain_with_port_from_str(s@) == Err::<
                    (Seq<char>, Option<u16>),
                    DomainWithPortParseError,
                >(e),
            },
    {
        match parse_domain_with_port(s) {
            Ok((domain, port)) => Ok(DomainWithPort { domain, port }),
            Err(e) => Err(e),
        }
    }

    /// The domain name.
    pub fn get_domain(&self) -> (r: &str)
        ensures
            r@ == self@.domain,
    {
        self.domain.as_str()
    }

    /// The port, which is never 0.
    pub fn get_port(&self) -> (r: Option<u16>)
        ensures
            r == self@.port,
            r != Some(0u16),
            valid_domain(self@),
    {
        proof {
            use_type_invariant(self);
        }
        self.port
    }

    /// The text `domain`, or `domain:port`.
    pub fn to_string(&self) -> (r: String)
        ensures
            r@ == domain_text(self@),
            valid_domain(self@),
    {
        proof {
            use_type_invariant(self);
        }
        match self.port {
            Some(p) => join_host_port(self.domain.as_str(), p),
            None => self.domain.clone(),
        }
    }
}

impl Clone for DomainWithPort {
    fn clone(&self) -> (r: Self)
        ensures
            r@ == self@,
    {
        proof {
            use_type_invariant(self);
        }
        DomainWithPort { domain: self.domain.clone(), port: self.port }
    }
}

impl PartialEq for DomainWithPort {
    fn eq(&self, other: &Self) -> (r: bool) {
        self.domain == other.domain && self.port == other.port
    }
}

impl vstd::std_specs::cmp::PartialEqSpecImpl for DomainWithPort {
    open spec fn obeys_eq_spec() -> bool {
        true
    }

    open spec fn eq_spec(&self, other: &Self) -> bool {
        self@ == other@
    }
}

/// A text that is accepted, other than `host:0`, is the text of its value,
/// and so the text of a value parses to that value again.
pub proof fn lemma_domain_text_round_trip(s: Seq<char>, v: DomainWithPortView)
    requires
        parses_to_domain(s, v),
        !(v.port is None && s == host_with_port(v.domain, 0)),
    ensures
        domain_text(v) == s,
        parses_to_domain(domain_text(v), v),
{
}

/// Why a text is no IP address with an optional port.
#[derive(Clone, Copy, Debug, PartialEq, Eq, Structural)]
pub enum IpAddrWithPortParseError {
    /// The text is neither an IP address nor a socket address.
    ParseError,
}

/// The mathematical value of an `IpAddrWithPort`: the address in its
/// standard text, whether it is an IPv6 address, and the port.
pub struct IpAddrWithPortView {
    pub ip_addr: Seq<char>,
    pub v6: bool,
    pub port: Option<u16>,
}

/// What `qiniu_sdk::http_client::IpAddrWithPort::from_str` returns on `s`:
/// the standard text of the parsed address, whether it is an IPv6 address,
/// and the port, or the error.
pub uninterp spec fn ip_addr_with_port_from_str(s: Seq<char>) -> Result<
    (Seq<char>, bool, Option<u16>),
    IpAddrWithPortParseError,
>;

/// `s` is accepted as an IP address with an optional port, and `v` is its value.
pub open spec fn parses_to_ip_addr(s: Seq<char>, v: IpAddrWithPortView) -> bool {
    &&& ip_addr_with_port_from_str(s) == Ok::<
        (Seq<char>, bool, Option<u16>),
        IpAddrWithPortParseError,
    >((v.ip_addr, v.v6, v.port))
    &&& v.port != Some(0u16)
}

/// Some text is accepted with the value `v`.
pub open spec fn valid_ip_addr(v: IpAddrWithPortView) -> bool {
    exists|s: Seq<char>| parses_to_ip_addr(s, v)
}

/// The host part of the text of an IP address: IPv6 addresses stand in
/// square brackets.
pub open spec fn ip_host_text(v: IpAddrWithPortView) -> Seq<char> {
    if v.v6 {
        seq!['['] + v.ip_addr + seq![']']
    } else {
        v.ip_addr
    }
}

/// The text that spells an IP address and a port.
pub open spec fn ip_addr_text(v: IpAddrWithPortView) -> Seq<char> {
    match v.port {
        Some(p) => host_with_port(ip_host_text(v), p),
        None => ip_host_text(v),
    }
}

/// An IP address with an optional port.
#[derive(Debug)]
pub struct IpAddrWithPort {
    ip_addr: String,
    v6: bool,
    port: Option<u16>,
}

impl View for IpAddrWithPort {
    type V = IpAddrWithPortView;

    closed spec fn view(&self) -> IpAddrWithPortView {
        IpAddrWithPortView { ip_addr: self.ip_addr@, v6: self.v6, port: self.port }
    }
}

/// Calls `qiniu_sdk::http_client::IpAddrWithPort::from_str` and takes the
/// parsed value apart. The result is the named result of that function. The
/// function stores a port of 0 as no port.
#[verifier::external_body]
fn parse_ip_addr_with_port(s: &str) -> (r: Result<
    (String, bool, Option<u16>),
    IpAddrWithPortParseError,
>)
    ensures
        match r {
            Ok(v) => parses_to_ip_addr(
                s@,
                IpAddrWithPortView { ip_addr: v.0@, v6: v.1, port: v.2 },
            ),
            Err(e) => ip_addr_with_port_from_str(s@) == Err::<
                (Seq<char>, bool, Option<u16>),
                IpAddrWithPortParseError,
            >(e),
        },
{
    match s.parse::<qiniu_sdk::http_client::IpAddrWithPort>() {
        Ok(parsed) => {
            let ip_addr = parsed.ip_addr();
            Ok((ip_addr.to_string(), ip_addr.is_ipv6(), parsed.port().map(|p| p.get())))
        },
        Err(_) => Err(IpAddrWithPortParseError::ParseError),
    }
}

impl IpAddrWithPort {
    #[verifier::type_invariant]
    spec fn inv(self) -> bool {
        valid_ip_addr(self@)
    }

    /// Parses `ip_addr`, or `ip_addr:port` where a port is given.
    pub fn new(ip_addr: String, port: Option<u16>) -> (r: Result<Self, IpAddrWithPortParseError>)
        ensures
            match r {
                Ok(v) => parses_to_ip_addr(composed(ip_addr@, port), v@),
                Err(e) => ip_addr_with_port_from_str(composed(ip_addr@, port)) == Err::<
                    (Seq<char>, bool, Option<u16>),
                    IpAddrWithPortParseError,
                >(e),
            },
    {
        match port {
            Some(p) => {
                let text = join_host_port(ip_addr.as_str(), p);
                Self::parse(text.as_str())
            },
            None => Self::parse(ip_addr.as_str()),
        }
    }

    /// Parses the text of an IP address with an optional port.
    pub fn parse(s: &str) -> (r: Result<Self, IpAddrWithPortParseError>)
        ensures
            match r {
                Ok(v) => parses_to_ip_addr(s@, v@),
                Err(e) => ip_addr_with_port_from_str(s@) == Err::<
                    (Seq<char>, bool, Option<u16>),
                    IpAddrWithPortParseError,
                >(e),
            },
    {
        match parse_ip_addr_with_port(s) {
            Ok((ip_addr, v6, port)) => Ok(IpAddrWithPort { ip_addr, v6, port }),
            Err(e) => Err(e),
        }
    }

    /// The IP address in its standard text.
    pub fn get_ip_addr(&self) -> (r: String)
        ensures
            r@ == self@.ip_addr,
    {
        self.ip_addr.clone()
    }

    /// Whether the address is an IPv6 address.
    pub fn is_ipv6(&self) -> (r: bool)
        ensures
            r == self@.v6,
    {
        self.v6
    }

    /// The port, which is never 0.
    pub fn get_port(&self) -> (r: Option<u16>)
        ensures
            r == self@.port,
            r != Some(0u16),
            valid_ip_addr(self@),
    {
        proof {
            use_type_invariant(self);
        }
        self.port
    }

    /// The text `ip`, `[ip]` for IPv6, or either followed by `:port`.
    pub fn to_string(&self) -> (r: String)
        ensures
            r@ == ip_addr_text(self@),
            valid_ip_addr(self@),
    {
        proof {
            use_type_invariant(self);
            reveal_strlit("[");
            reveal_strlit("]");
        }
        let host = if self.v6 {
            let mut h = String::from_str("[");
            h.append(self.ip_addr.as_str());
            h.append("]");
            assert("["@ =~= seq!['[']);
            assert("]"@ =~= seq![']']);
            h
        } else {
            self.ip_addr.clone()
        };
        match self.port {
            Some(p) => join_host_port(host.as_str(), p),
            None => host,
        }
    }
}

impl Clone for IpAddrWithPort {
    fn clone(&self) -> (r: Self)
        ensures
            r@ == self@,
    {
        proof {
            use_type_invariant(self);
        }
        IpAddrWithPort { ip_addr: self.ip_addr.clone(), v6: self.v6, port: self.port }
    }
}

impl PartialEq for IpAddrWithPort {
    fn eq(&self, other: &Self) -> (r: bool) {
        self.ip_addr == other.ip_addr && self.v6 == other.v6 && self.port == other.port
    }
}

impl vstd::std_specs::cmp::PartialEqSpecImpl for IpAddrWithPort {
    open spec fn obeys_eq_spec() -> bool {
        true
    }

    open spec fn eq_spec(&self, other: &Self) -> bool {
        self@ == other@
    }
}

/// Why a text is no endpoint.
#[derive(Clone, Copy, Debug, PartialEq, Eq, Structural)]
pub enum EndpointParseError {
    /// The port is not a number in the range of a port.
    InvalidPort,
    /// There is no host before the port.
    EmptyHost,
    /// The host is neither an IP address nor a domain name.
    InvalidDomainCharacter,
}

/// The endpoint error that stands for a domain error.
pub open spec fn endpoint_error(e: DomainWithPortParseError) -> EndpointParseError {
    match e {
        DomainWithPortParseError::InvalidPort => EndpointParseError::InvalidPort,
        DomainWithPortParseError::EmptyHost => EndpointParseError::EmptyHost,
        DomainWithPortParseError::InvalidDomainCharacter => EndpointParseError::InvalidDomainCharacter,
    }
}

impl EndpointParseError {
    /// Turns the error of the domain parser into an endpoint error.
    pub fn from_domain_error(e: DomainWithPortParseError) -> (r: Self)
        ensures
            r == endpoint_error(e),
    {
        match e {
            DomainWithPortParseError::InvalidPort => EndpointParseError::InvalidPort,
            DomainWithPortParseError::EmptyHost => EndpointParseError::EmptyHost,
            DomainWithPortParseError::InvalidDomainCharacter => EndpointParseError::InvalidDomainCharacter,
        }
    }
}

/// The mathematical value of an `Endpoint`.
pub enum EndpointView {
    DomainWithPort(DomainWithPortView),
    IpAddrWithPort(IpAddrWithPortView),
}

/// `s` is accepted as an endpoint with the value `v`: as an IP address, or,
/// where it is none, as a domain.
pub open spec fn parses_to_endpoint(s: Seq<char>, v: EndpointView) -> bool {
    match v {
        EndpointView::IpAddrWithPort(ip) => parses_to_ip_addr(s, ip),
        EndpointView::DomainWithPort(d) => ip_addr_with_port_from_str(s) is Err
            && parses_to_domain(s, d),
    }
}

/// `s` is rejected as an endpoint with the error `e`: it is no IP address,
/// and the domain parser rejects it with the error that `e` stands for.
pub open spec fn rejected_as_endpoint(s: Seq<char>, e: EndpointParseError) -> bool {
    &&& ip_addr_with_port_from_str(s) is Err
    &&& match domain_with_port_from_str(s) {
        Ok(_) => false,
        Err(d) => e == endpoint_error(d),
    }
}

/// Some text is accepted with the value `v`.
pub open spec fn valid_endpoint(v: EndpointView) -> bool {
    match v {
        EndpointView::IpAddrWithPort(ip) => valid_ip_addr(ip),
        EndpointView::DomainWithPort(d) => valid_domain(d),
    }
}

/// The text that spells an endpoint.
pub open spec fn endpoint_text(v: EndpointView) -> Seq<char> {
    match v {
        EndpointView::IpAddrWithPort(ip) => ip_addr_text(ip),
        EndpointView::DomainWithPort(d) => domain_text(d),
    }
}

/// The port of an endpoint.
pub open spec fn endpoint_port(v: EndpointView) -> Option<u16> {
    match v {
        EndpointView::IpAddrWithPort(ip) => ip.port,
        EndpointView::DomainWithPort(d) => d.port,
    }
}

/// A domain or an IP address, with an optional port.
#[derive(Debug)]
pub enum Endpoint {
    DomainWithPort(DomainWithPort),
    IpAddrWithPort(IpAddrWithPort),
}

impl View for Endpoint {
    type V = EndpointView;

    open spec fn view(&self) -> EndpointView {
        match self {
            Endpoint::DomainWithPort(d) => EndpointView::DomainWithPort(d@),
            Endpoint::IpAddrWithPort(ip) => EndpointView::IpAddrWithPort(ip@),
        }
    }
}

impl Endpoint {
    /// Parses `domain_or_ip_addr`, or `domain_or_ip_addr:port` where a port
    /// is given.
    pub fn new(domain_or_ip_addr: String, port: Option<u16>) -> (r: Result<
        Self,
        EndpointParseError,
    >)
        ensures
            match r {
                Ok(v) => parses_to_endpoint(composed(domain_or_ip_addr@, port), v@),
                Err(e) => rejected_as_endpoint(composed(domain_or_ip_addr@, port), e),
            },
    {
        match port {
            Some(p) => {
                let text = join_host_port(domain_or_ip_addr.as_str(), p);
                Self::parse(text.as_str())
            },
            None => Self::parse(domain_or_ip_addr.as_str()),
        }
    }

    /// Parses the text of an endpoint: an IP address where the text is one,
    /// else a domain.
    pub fn parse(s: &str) -> (r: Result<Self, EndpointParseError>)
        ensures
            match r {
                Ok(v) => parses_to_endpoint(s@, v@),
                Err(e) => rejected_as_endpoint(s@, e),
            },
    {
        match IpAddrWithPort::parse(s) {
            Ok(ip) => Ok(Self::from_ip_addr_with_port(ip)),
            Err(_) => Self::from_domain_result(DomainWithPort::parse(s)),
        }
    }

    /// The endpoint of an IP address.
    pub fn from_ip_addr_with_port(ip: IpAddrWithPort) -> (r: Self)
        ensures
            r == Endpoint::IpAddrWithPort(ip),
    {
        Endpoint::IpAddrWithPort(ip)
    }

    /// The endpoint of a domain.
    pub fn from_domain_with_port(domain: DomainWithPort) -> (r: Self)
        ensures
            r == Endpoint::DomainWithPort(domain),
    {
        Endpoint::DomainWithPort(domain)
    }

    /// The endpoint of a parsed domain, or the endpoint error that stands
    /// for the domain error.
    pub fn from_domain_result(parsed: Result<DomainWithPort, DomainWithPortParseError>) -> (r:
        Result<Self, EndpointParseError>)
        ensures
            match parsed {
                Ok(d) => r == Ok::<Endpoint, EndpointParseError>(Endpoint::DomainWithPort(d)),
                Err(e) => r == Err::<Endpoint, EndpointParseError>(endpoint_error(e)),
            },
    {
        match parsed {
            Ok(d) => Ok(Self::from_domain_with_port(d)),
            Err(e) => Err(EndpointParseError::from_domain_error(e)),
        }
    }

    /// The domain name, where the endpoint is a domain.
    pub fn get_domain(&self) -> (r: Option<&str>)
        ensures
            match self@ {
                EndpointView::DomainWithPort(d) => r matches Some(t) && t@ == d.domain,
                EndpointView::IpAddrWithPort(_) => r is None,
            },
    {
        match self {
            Endpoint::DomainWithPort(d) => Some(d.get_domain()),
            Endpoint::IpAddrWithPort(_) => None,
        }
    }

    /// The IP address in its standard text, where the endpoint is one.
    pub fn get_ip_addr(&self) -> (r: Option<String>)
        ensures
            match self@ {
                EndpointView::IpAddrWithPort(ip) => r matches Some(t) && t@ == ip.ip_addr,
                EndpointView::DomainWithPort(_) => r is None,
            },
    {
        match self {
            Endpoint::IpAddrWithPort(ip) => Some(ip.get_ip_addr()),
            Endpoint::DomainWithPort(_) => None,
        }
    }

    /// The port, which is never 0.
    pub fn get_port(&self) -> (r: Option<u16>)
        ensures
            r == endpoint_port(self@),
            r != Some(0u16),
            valid_endpoint(self@),
    {
        match self {
            Endpoint::IpAddrWithPort(ip) => ip.get_port(),
            Endpoint::DomainWithPort(d) => d.get_port(),
        }
    }

    /// The text that spells the endpoint.
    pub fn to_string(&self) -> (r: String)
        ensures
            r@ == endpoint_text(self@),
            valid_endpoint(self@),
    {
        match self {
            Endpoint::IpAddrWithPort(ip) => ip.to_string(),
            Endpoint::DomainWithPort(d) => d.to_string(),
        }
    }
}

impl Clone for Endpoint {
    fn clone(&self) -> (r: Self)
        ensures
            r@ == self@,
    {
        match self {
            Endpoint::IpAddrWithPort(ip) => Endpoint::IpAddrWithPort(ip.clone()),
            Endpoint::DomainWithPort(d) => Endpoint::DomainWithPort(d.clone()),
        }
    }
}

impl PartialEq for Endpoint {
    fn eq(&self, other: &Self) -> (r: bool) {
        match (self, other) {
            (Endpoint::IpAddrWithPort(a), Endpoint::IpAddrWithPort(b)) => a == b,
            (Endpoint::DomainWithPort(a), Endpoint::DomainWithPort(b)) => a == b,
            _ => false,
        }
    }
}

impl vstd::std_specs::cmp::PartialEqSpecImpl for Endpoint {
    open spec fn obeys_eq_spec() -> bool {
        true
    }

    open spec fn eq_spec(&self, other: &Self) -> bool {
        self@ == other@
    }
}

/// The text of a valid domain that has a port parses to that domain again.
pub proof fn lemma_domain_with_port_parses_back(v: DomainWithPortView)
    requires
        valid_domain(v),
        v.port is Some,
    ensures
        parses_to_domain(domain_text(v), v),
{
    let s = choose|s: Seq<char>| parses_to_domain(s, v);
    assert(s == domain_text(v));
}

/// An endpoint text that is accepted as a domain, other than `host:0`, is
/// the text of its value, and so the text of the value parses to that value
/// again.
pub proof fn lemma_endpoint_text_round_trip(s: Seq<char>, d: DomainWithPortView)
    requires
        parses_to_endpoint(s, EndpointView::DomainWithPort(d)),
        !(d.port is None && s == host_with_port(d.domain, 0)),
    ensures
        endpoint_text(EndpointView::DomainWithPort(d)) == s,
        parses_to_endpoint(
            endpoint_text(EndpointView::DomainWithPort(d)),
            EndpointView::DomainWithPort(d),
        ),
{
}

/// A text is never both accepted and rejected as an endpoint, and it is
/// accepted with one value only.
pub proof fn lemma_endpoint_parse_is_a_function(
    s: Seq<char>,
    v: EndpointView,
    w: EndpointView,
    e: EndpointParseError,
)
    requires
        parses_to_endpoint(s, v),
    ensures
        !rejected_as_endpoint(s, e),
        parses_to_endpoint(s, w) ==> v == w,
{
}

/// The message of a domain error.
pub open spec fn domain_error_text(e: DomainWithPortParseError) -> Seq<char> {
    match e {
        DomainWithPortParseError::InvalidPort => "invalid port number"@,
        DomainWithPortParseError::EmptyHost => "empty host"@,
        DomainWithPortParseError::InvalidDomainCharacter => "invalid domain character"@,
    }
}

/// The message of an endpoint error: that of the domain error it stands for.
pub open spec fn endpoint_error_text(e: EndpointParseError) -> Seq<char> {
    match e {
        EndpointParseError::InvalidPort => "invalid port number"@,
        EndpointParseError::EmptyHost => "empty host"@,
        EndpointParseError::InvalidDomainCharacter => "invalid domain character"@,
    }
}

impl DomainWithPortParseError {
    /// The message of the error.
    pub fn message(&self) -> (r: &'static str)
        ensures
            r@ == domain_error_text(*self),
    {
        match self {
            DomainWithPortParseError::InvalidPort => "invalid port number",
            DomainWithPortParseError::EmptyHost => "empty host",
            DomainWithPortParseError::InvalidDomainCharacter => "invalid domain character",
        }
    }
}

impl IpAddrWithPortParseError {
    /// The message of the error.
    pub fn message(&self) -> (r: &'static str)
        ensures
            r@ == "invalid ip address: invalid IP address syntax"@,
    {
        "invalid ip address: invalid IP address syntax"
    }
}

impl EndpointParseError {
    /// The message of the error.
    pub fn message(&self) -> (r: &'static str)
        ensures
            r@ == endpoint_error_text(*self),
    {
        match self {
            EndpointParseError::InvalidPort => "invalid port number",
            EndpointParseError::EmptyHost => "empty host",
            EndpointParseError::InvalidDomainCharacter => "invalid domain character",
        }
    }
}

/// An endpoint error has the message of the domain error it stands for.
pub proof fn lemma_endpoint_error_keeps_message(e: DomainWithPortParseError)
    ensures
        endpoint_error_text(endpoint_error(e)) == domain_error_text(e),
{
}

} // verus!
