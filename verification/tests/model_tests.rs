use qiniu_bindings::endpoint::Endpoint;
use qiniu_bindings::endpoint::EndpointParseError;
use qiniu_bindings::endpoints::extract_endpoint;
use qiniu_bindings::endpoints::extract_endpoints;
use qiniu_bindings::endpoints::EndpointSource;
use qiniu_bindings::endpoints::Endpoints;
use qiniu_bindings::region::Region;
use qiniu_bindings::service_name::InvalidServiceNameError;
use qiniu_bindings::service_name::ServiceName;
use qiniu_bindings::service_name::SERVICE_COUNT;

fn ep(text: &str) -> Endpoint {
    Endpoint::parse(text).unwrap()
}

fn eps(texts: &[&str]) -> Vec<Endpoint> {
    texts.iter().map(|t| ep(t)).collect()
}

fn texts_of(list: &[Endpoint]) -> Vec<String> {
    list.iter().map(|e| e.to_string()).collect()
}

fn sources(texts: &[&str]) -> Vec<EndpointSource> {
    texts.iter().map(|t| EndpointSource::Text(t.to_string())).collect()
}

#[test]
fn service_ordinals_are_stable() {
    assert_eq!(ServiceName::Up.ordinal(), 0);
    assert_eq!(ServiceName::Io.ordinal(), 1);
    assert_eq!(ServiceName::Uc.ordinal(), 2);
    assert_eq!(ServiceName::Rs.ordinal(), 3);
    assert_eq!(ServiceName::Rsf.ordinal(), 4);
    assert_eq!(ServiceName::Api.ordinal(), 5);
    assert_eq!(ServiceName::S3.ordinal(), 6);
    assert_eq!(SERVICE_COUNT, 7);
}

#[test]
fn service_from_ordinal_inverts_ordinal() {
    let all = [
        ServiceName::Up,
        ServiceName::Io,
        ServiceName::Uc,
        ServiceName::Rs,
        ServiceName::Rsf,
        ServiceName::Api,
        ServiceName::S3,
    ];
    for service in all {
        assert_eq!(ServiceName::from_ordinal(service.ordinal()), Ok(service));
    }
    assert_eq!(ServiceName::from_ordinal(7), Err(InvalidServiceNameError { ordinal: 7 }));
    assert_eq!(ServiceName::from_ordinal(255), Err(InvalidServiceNameError { ordinal: 255 }));
}

#[test]
fn service_names_are_lower_case() {
    assert_eq!(ServiceName::Up.name(), "up");
    assert_eq!(ServiceName::Io.name(), "io");
    assert_eq!(ServiceName::Uc.name(), "uc");
    assert_eq!(ServiceName::Rs.name(), "rs");
    assert_eq!(ServiceName::Rsf.name(), "rsf");
    assert_eq!(ServiceName::Api.name(), "api");
    assert_eq!(ServiceName::S3.name(), "s3");
}

#[test]
fn endpoints_keep_both_lists_in_order() {
    let e = Endpoints::new(eps(&["b.com", "a.com", "b.com"]), Some(eps(&["z.com:80", "1.2.3.4"])));
    assert_eq!(texts_of(&e.get_preferred()), ["b.com", "a.com", "b.com"]);
    assert_eq!(texts_of(&e.get_alternative()), ["z.com:80", "1.2.3.4"]);
    assert_eq!(texts_of(e.preferred()), ["b.com", "a.com", "b.com"]);
    assert_eq!(texts_of(e.alternative()), ["z.com:80", "1.2.3.4"]);
    assert!(!e.is_empty());
}

#[test]
fn endpoints_without_alternative() {
    let e = Endpoints::new(eps(&["a.com"]), None);
    assert_eq!(texts_of(&e.get_preferred()), ["a.com"]);
    assert!(e.get_alternative().is_empty());
    assert!(Endpoints::empty().is_empty());
    assert!(Endpoints::empty().get_preferred().is_empty());
}

#[test]
fn endpoints_equality_is_reflexive_and_symmetric() {
    let a = Endpoints::new(eps(&["a.com", "b.com"]), Some(eps(&["c.com"])));
    let b = Endpoints::new(eps(&["a.com", "b.com"]), Some(eps(&["c.com"])));
    assert!(a == a);
    assert!(a == b);
    assert!(b == a);
    assert!(a.clone() == a);
}

#[test]
fn endpoints_equality_is_sensitive_to_order() {
    let a = Endpoints::new(eps(&["a.com", "b.com"]), Some(eps(&["c.com"])));
    let reordered = Endpoints::new(eps(&["b.com", "a.com"]), Some(eps(&["c.com"])));
    let swapped = Endpoints::new(eps(&["c.com"]), Some(eps(&["a.com", "b.com"])));
    let shorter = Endpoints::new(eps(&["a.com"]), Some(eps(&["c.com"])));
    assert!(a != reordered);
    assert!(reordered != a);
    assert!(a != swapped);
    assert!(a != shorter);
    let same_lists = Endpoints::new(eps(&["a.com"]), Some(eps(&["a.com"])));
    let same_lists_swapped = Endpoints::new(eps(&["a.com"]), Some(eps(&["a.com"])));
    assert!(same_lists == same_lists_swapped);
}

#[test]
fn extract_endpoint_takes_each_kind_of_source() {
    let given = ep("a.com:1");
    assert!(extract_endpoint(&EndpointSource::Endpoint(given.clone())).unwrap() == given);
    assert!(extract_endpoint(&EndpointSource::Text("a.com:1".to_string())).unwrap() == given);
    assert!(extract_endpoint(&EndpointSource::HostWithPort("a.com".to_string(), 1)).unwrap() == given);
    assert_eq!(
        extract_endpoint(&EndpointSource::Text("".to_string())).unwrap_err(),
        EndpointParseError::EmptyHost
    );
    assert_eq!(
        extract_endpoint(&EndpointSource::HostWithPort("a b".to_string(), 1)).unwrap_err(),
        EndpointParseError::InvalidDomainCharacter
    );
}

#[test]
fn extract_endpoints_stops_at_the_first_rejected() {
    let list = extract_endpoints(&sources(&["a.com", "1.2.3.4:5", "b.com:6"])).unwrap();
    assert_eq!(texts_of(&list), ["a.com", "1.2.3.4:5", "b.com:6"]);
    assert_eq!(
        extract_endpoints(&sources(&["a.com", "b.com:65536", ""])).unwrap_err(),
        EndpointParseError::InvalidPort
    );
    assert_eq!(
        extract_endpoints(&sources(&["", "b.com:65536"])).unwrap_err(),
        EndpointParseError::EmptyHost
    );
    assert!(extract_endpoints(&Vec::new()).unwrap().is_empty());
}

#[test]
fn endpoints_from_sources() {
    let e = Endpoints::from_sources(sources(&["a.com", "b.com"]), Some(sources(&["c.com"]))).unwrap();
    assert!(e == Endpoints::new(eps(&["a.com", "b.com"]), Some(eps(&["c.com"]))));
    let e = Endpoints::from_sources(sources(&["a.com"]), None).unwrap();
    assert!(e == Endpoints::new(eps(&["a.com"]), None));
    assert_eq!(
        Endpoints::from_sources(sources(&["a.com:99999"]), Some(sources(&[""]))).unwrap_err(),
        EndpointParseError::InvalidPort
    );
    assert_eq!(
        Endpoints::from_sources(sources(&["a.com"]), Some(sources(&[""]))).unwrap_err(),
        EndpointParseError::EmptyHost
    );
}

fn z0() -> Region {
    Region::new(
        "z0".to_string(),
        None,
        Some(sources(&["upload.qiniup.com", "up.qiniup.com"])),
        Some(sources(&["up.qbox.me"])),
        Some(sources(&["iovip.qbox.me"])),
        None,
        Some(sources(&["uc.qbox.me"])),
        None,
        Some(sources(&["rs.qbox.me"])),
        None,
        Some(sources(&["rsf.qbox.me"])),
        None,
        Some(sources(&["s3-cn-east-1.qiniucs.com"])),
        None,
        Some(sources(&["api.qiniu.com"])),
        Some(sources(&["10.11.0.178:10221"])),
    )
    .unwrap()
}

#[test]
fn region_holds_what_it_was_built_from() {
    let r = z0();
    assert_eq!(r.get_region_id(), "z0");
    assert_eq!(r.get_s3_region_id(), "z0");
    assert_eq!(texts_of(&r.get_up_preferred_endpoints()), ["upload.qiniup.com", "up.qiniup.com"]);
    assert_eq!(texts_of(&r.get_up_alternative_endpoints()), ["up.qbox.me"]);
    assert_eq!(texts_of(&r.get_io_preferred_endpoints()), ["iovip.qbox.me"]);
    assert!(r.get_io_alternative_endpoints().is_empty());
    assert_eq!(texts_of(&r.get_uc_preferred_endpoints()), ["uc.qbox.me"]);
    assert!(r.get_uc_alternative_endpoints().is_empty());
    assert_eq!(texts_of(&r.get_rs_preferred_endpoints()), ["rs.qbox.me"]);
    assert!(r.get_rs_alternative_endpoints().is_empty());
    assert_eq!(texts_of(&r.get_rsf_preferred_endpoints()), ["rsf.qbox.me"]);
    assert!(r.get_rsf_alternative_endpoints().is_empty());
    assert_eq!(texts_of(&r.get_s3_preferred_endpoints()), ["s3-cn-east-1.qiniucs.com"]);
    assert!(r.get_s3_alternative_endpoints().is_empty());
    assert_eq!(texts_of(&r.get_api_preferred_endpoints()), ["api.qiniu.com"]);
    assert_eq!(texts_of(&r.get_api_alternative_endpoints()), ["10.11.0.178:10221"]);
}

#[test]
fn region_services_are_told_apart() {
    let r = z0();
    assert!(r.get_up() == Endpoints::new(eps(&["upload.qiniup.com", "up.qiniup.com"]), Some(eps(&["up.qbox.me"]))));
    assert!(r.get_io() == Endpoints::new(eps(&["iovip.qbox.me"]), None));
    assert!(r.get_uc() == Endpoints::new(eps(&["uc.qbox.me"]), None));
    assert!(r.get_rs() == Endpoints::new(eps(&["rs.qbox.me"]), None));
    assert!(r.get_rsf() == Endpoints::new(eps(&["rsf.qbox.me"]), None));
    assert!(r.get_s3() == Endpoints::new(eps(&["s3-cn-east-1.qiniucs.com"]), None));
    assert!(r.get_api() == Endpoints::new(eps(&["api.qiniu.com"]), Some(eps(&["10.11.0.178:10221"]))));
    assert!(*r.endpoints(ServiceName::Up) == r.get_up());
    assert!(*r.endpoints(ServiceName::Io) == r.get_io());
    assert!(*r.endpoints(ServiceName::Uc) == r.get_uc());
    assert!(*r.endpoints(ServiceName::Rs) == r.get_rs());
    assert!(*r.endpoints(ServiceName::Rsf) == r.get_rsf());
    assert!(*r.endpoints(ServiceName::Api) == r.get_api());
    assert!(*r.endpoints(ServiceName::S3) == r.get_s3());
}

#[test]
fn region_defaults() {
    let r = Region::new(
        "z1".to_string(),
        None,
        None,
        None,
        None,
        None,
        None,
        None,
        None,
        None,
        None,
        None,
        None,
        None,
        None,
        None,
    )
    .unwrap();
    assert_eq!(r.get_region_id(), "z1");
    assert_eq!(r.get_s3_region_id(), "z1");
    assert!(r.get_up().is_empty());
    assert!(r.get_io().is_empty());
    assert!(r.get_uc().is_empty());
    assert!(r.get_rs().is_empty());
    assert!(r.get_rsf().is_empty());
    assert!(r.get_api().is_empty());
    assert!(r.get_s3().is_empty());
}

#[test]
fn region_s3_region_id_can_be_set() {
    let r = Region::new(
        "z0".to_string(),
        Some("cn-east-1".to_string()),
        None,
        None,
        None,
        None,
        None,
        None,
        None,
        None,
        None,
        None,
        None,
        None,
        None,
        None,
    )
    .unwrap();
    assert_eq!(r.get_region_id(), "z0");
    assert_eq!(r.get_s3_region_id(), "cn-east-1");
}

#[test]
fn region_reports_the_first_rejected_source() {
    let r = Region::new(
        "z0".to_string(),
        None,
        Some(sources(&["up.qiniup.com"])),
        Some(sources(&["up.qbox.me:65536"])),
        Some(sources(&[""])),
        None,
        None,
        None,
        None,
        None,
        None,
        None,
        None,
        None,
        None,
        None,
    );
    assert_eq!(r.unwrap_err(), EndpointParseError::InvalidPort);
    let r = Region::new(
        "z0".to_string(),
        None,
        None,
        None,
        None,
        None,
        None,
        None,
        None,
        None,
        None,
        None,
        None,
        Some(sources(&["a b"])),
        Some(sources(&[""])),
        None,
    );
    assert_eq!(r.unwrap_err(), EndpointParseError::InvalidDomainCharacter);
}

#[test]
fn region_equality_is_structural() {
    let a = z0();
    let b = z0();
    assert!(a == b);
    assert!(a.clone() == a);
    let other = Region::new(
        "z0".to_string(),
        Some("cn-east-1".to_string()),
        Some(sources(&["upload.qiniup.com", "up.qiniup.com"])),
        Some(sources(&["up.qbox.me"])),
        Some(sources(&["iovip.qbox.me"])),
        None,
        Some(sources(&["uc.qbox.me"])),
        None,
        Some(sources(&["rs.qbox.me"])),
        None,
        Some(sources(&["rsf.qbox.me"])),
        None,
        Some(sources(&["s3-cn-east-1.qiniucs.com"])),
        None,
        Some(sources(&["api.qiniu.com"])),
        Some(sources(&["10.11.0.178:10221"])),
    )
    .unwrap();
    assert!(a != other);
}
