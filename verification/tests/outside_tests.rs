use qiniu_bindings::endpoint::DomainWithPort;
use qiniu_bindings::endpoint::DomainWithPortParseError;
use qiniu_bindings::endpoint::Endpoint;
use qiniu_bindings::endpoint::EndpointParseError;
use qiniu_bindings::endpoint::IpAddrWithPort;
use qiniu_bindings::endpoint::IpAddrWithPortParseError;

const TEXTS: [&str; 24] = [
    "",
    "/",
    ":",
    ":8080",
    "domain",
    "domain:",
    "domain:0",
    "domain:1",
    "domain:080",
    "domain:443",
    "domain:8080",
    "domain:8080/",
    "domain:65535",
    "domain:65536",
    "DOMAIN.com",
    "up qiniup.com",
    "127.0.0.1",
    "127.0.0.1:0",
    "127.0.0.1:8080",
    "127.0.0.1:65536",
    "[127.0.0.1]:8080",
    "fe80::e31c:b4e6:5919:728f",
    "[fe80::e31c:b4e6:5919:728f]",
    "[fe80::e31c:b4e6:5919:728f]:8080",
];

#[test]
fn domains_agree_with_the_sdk() {
    for text in TEXTS {
        let ours = DomainWithPort::parse(text);
        let theirs = text.parse::<qiniu_sdk::http_client::DomainWithPort>();
        match (ours, theirs) {
            (Ok(a), Ok(b)) => {
                assert_eq!(a.get_domain(), b.domain(), "{text}");
                assert_eq!(a.get_port(), b.port().map(|p| p.get()), "{text}");
                assert_eq!(a.to_string(), b.to_string(), "{text}");
            }
            (Err(a), Err(b)) => assert_eq!(a.message(), b.to_string(), "{text}"),
            (a, b) => panic!("{text}: {:?} against {:?}", a, b),
        }
    }
}

#[test]
fn ip_addresses_agree_with_the_sdk() {
    for text in TEXTS {
        let ours = IpAddrWithPort::parse(text);
        let theirs = text.parse::<qiniu_sdk::http_client::IpAddrWithPort>();
        match (ours, theirs) {
            (Ok(a), Ok(b)) => {
                assert_eq!(a.get_ip_addr(), b.ip_addr().to_string(), "{text}");
                assert_eq!(a.is_ipv6(), b.ip_addr().is_ipv6(), "{text}");
                assert_eq!(a.get_port(), b.port().map(|p| p.get()), "{text}");
                assert_eq!(a.to_string(), b.to_string(), "{text}");
            }
            (Err(a), Err(b)) => assert_eq!(a.message(), b.to_string(), "{text}"),
            (a, b) => panic!("{text}: {:?} against {:?}", a, b),
        }
    }
}

#[test]
fn endpoints_agree_with_the_sdk() {
    for text in TEXTS {
        let ours = Endpoint::parse(text);
        let theirs = text.parse::<qiniu_sdk::http_client::Endpoint>();
        match (ours, theirs) {
            (Ok(a), Ok(b)) => {
                assert_eq!(a.get_domain(), b.domain(), "{text}");
                assert_eq!(a.get_ip_addr(), b.ip_addr().map(|ip| ip.to_string()), "{text}");
                assert_eq!(a.get_port(), b.port().map(|p| p.get()), "{text}");
                assert_eq!(a.to_string(), b.to_string(), "{text}");
            }
            (Err(a), Err(b)) => assert_eq!(a.message(), b.to_string(), "{text}"),
            (a, b) => panic!("{text}: {:?} against {:?}", a, b),
        }
    }
}

#[test]
fn constructors_agree_with_the_sdk() {
    for host in ["domain", "", "127.0.0.1", "fe80::1", "[fe80::1]", "a b"] {
        for port in [None, Some(0u16), Some(1), Some(80), Some(443), Some(65535)] {
            let text = match port {
                Some(p) => format!("{}:{}", host, p),
                None => host.to_string(),
            };
            let ours = Endpoint::new(host.to_string(), port);
            let theirs = text.parse::<qiniu_sdk::http_client::Endpoint>();
            match (ours, theirs) {
                (Ok(a), Ok(b)) => assert_eq!(a.to_string(), b.to_string(), "{text}"),
                (Err(a), Err(b)) => assert_eq!(a.message(), b.to_string(), "{text}"),
                (a, b) => panic!("{text}: {:?} against {:?}", a, b),
            }
        }
    }
}

#[test]
fn error_messages() {
    assert_eq!(DomainWithPortParseError::InvalidPort.message(), "invalid port number");
    assert_eq!(DomainWithPortParseError::EmptyHost.message(), "empty host");
    assert_eq!(DomainWithPortParseError::InvalidDomainCharacter.message(), "invalid domain character");
    assert_eq!(EndpointParseError::InvalidPort.message(), "invalid port number");
    assert_eq!(EndpointParseError::EmptyHost.message(), "empty host");
    assert_eq!(EndpointParseError::InvalidDomainCharacter.message(), "invalid domain character");
    assert_eq!(
        IpAddrWithPortParseError::ParseError.message(),
        "invalid ip address: invalid IP address syntax"
    );
}
