use qiniu_bindings::all_regions_provider::AllRegionsProvider;
use qiniu_bindings::all_regions_provider::ApiCallError;
use qiniu_bindings::all_regions_provider::CacheEntry;
use qiniu_bindings::all_regions_provider::CacheState;
use qiniu_bindings::all_regions_provider::Persistence;
use qiniu_bindings::all_regions_provider::Plan;
use qiniu_bindings::all_regions_provider::RegionPlan;
use qiniu_bindings::all_regions_provider::DEFAULT_CACHE_LIFETIME;
use qiniu_bindings::all_regions_provider::DEFAULT_SHRINK_INTERVAL;
use qiniu_bindings::endpoint::Endpoint;
use qiniu_bindings::endpoints::EndpointSource;
use qiniu_bindings::endpoints::Endpoints;
use qiniu_bindings::endpoints_provider::endpoints_of_region;
use qiniu_bindings::endpoints_provider::EndpointsPlan;
use qiniu_bindings::endpoints_provider::EndpointsProvider;
use qiniu_bindings::region::Region;
use qiniu_bindings::regions_provider::EmptyRegionsProvider;
use qiniu_bindings::regions_provider::RegionsProvider;
use qiniu_bindings::regions_provider::StaticRegionsProvider;
use qiniu_bindings::service_name::ServiceName;

fn eps(texts: &[&str]) -> Vec<Endpoint> {
    texts.iter().map(|t| Endpoint::parse(t).unwrap()).collect()
}

fn texts_of(list: &[Endpoint]) -> Vec<String> {
    list.iter().map(|e| e.to_string()).collect()
}

fn sources(texts: &[&str]) -> Option<Vec<EndpointSource>> {
    Some(texts.iter().map(|t| EndpointSource::Text(t.to_string())).collect())
}

fn region(id: &str) -> Region {
    Region::new(
        id.to_string(),
        None,
        sources(&[&format!("up1.{id}.com"), &format!("up2.{id}.com")]),
        sources(&[&format!("up-old.{id}.com")]),
        sources(&[&format!("io.{id}.com")]),
        sources(&[&format!("io-old1.{id}.com"), &format!("io-old2.{id}.com")]),
        sources(&[&format!("uc.{id}.com")]),
        None,
        sources(&[&format!("rs.{id}.com")]),
        None,
        sources(&[&format!("rsf.{id}.com")]),
        None,
        sources(&[&format!("s3.{id}.com")]),
        None,
        sources(&[&format!("api.{id}.com")]),
        None,
    )
    .unwrap()
}

fn ids(regions: &[Region]) -> Vec<String> {
    regions.iter().map(|r| r.get_region_id().to_string()).collect()
}

fn served(plan: Plan) -> Vec<Region> {
    match plan {
        Plan::Serve(regions) => regions,
        other => panic!("not served: {:?}", other),
    }
}

#[test]
fn static_provider_needs_a_region() {
    assert_eq!(StaticRegionsProvider::new(Vec::new()).unwrap_err(), EmptyRegionsProvider);
    assert!(matches!(RegionsProvider::new(Vec::new()), Err(EmptyRegionsProvider)));
    assert_eq!(EmptyRegionsProvider.message(), "regions is empty");
}

#[test]
fn static_provider_hands_out_the_first_region_every_time() {
    let provider = StaticRegionsProvider::new(vec![region("z0"), region("z1"), region("z2")]).unwrap();
    for _ in 0..3 {
        assert!(provider.get() == region("z0"));
        assert_eq!(ids(&provider.get_all()), ["z0", "z1", "z2"]);
    }
    let single = StaticRegionsProvider::from_region(region("z7"));
    assert!(single.get() == region("z7"));
    assert_eq!(ids(&single.get_all()), ["z7"]);
}

#[test]
fn regions_provider_of_a_fixed_list_never_discovers() {
    let mut provider = RegionsProvider::new(vec![region("z1"), region("z0")]).unwrap();
    for now in [0, 1, u64::MAX] {
        match provider.get(now) {
            RegionPlan::Serve(r) => assert!(r == region("z1")),
            other => panic!("not served: {:?}", other),
        }
        assert_eq!(ids(&served(provider.get_all(now))), ["z1", "z0"]);
    }
    let done = provider.complete_discovery(5, Err(ApiCallError::new("ignored".to_string())));
    assert_eq!(ids(&done.answer.unwrap()), ["z1", "z0"]);
    assert!(!done.persist);
    let mut single = RegionsProvider::from_region(region("z5"));
    assert_eq!(ids(&served(single.get_all(0))), ["z5"]);
}

#[test]
fn endpoints_of_one_service_are_served_unchanged() {
    let r = region("z0");
    let up = endpoints_of_region(&r, &vec![ServiceName::Up]);
    assert!(up == r.get_up());
    assert_eq!(texts_of(&up.get_preferred()), ["up1.z0.com", "up2.z0.com"]);
    assert_eq!(texts_of(&up.get_alternative()), ["up-old.z0.com"]);
}

#[test]
fn endpoints_are_merged_in_the_order_of_the_services() {
    let r = region("z0");
    let merged = endpoints_of_region(&r, &vec![ServiceName::Io, ServiceName::Up, ServiceName::Io]);
    assert_eq!(
        texts_of(&merged.get_preferred()),
        ["io.z0.com", "up1.z0.com", "up2.z0.com", "io.z0.com"]
    );
    assert_eq!(
        texts_of(&merged.get_alternative()),
        ["io-old1.z0.com", "io-old2.z0.com", "up-old.z0.com", "io-old1.z0.com", "io-old2.z0.com"]
    );
    let all = endpoints_of_region(
        &r,
        &vec![
            ServiceName::Up,
            ServiceName::Io,
            ServiceName::Uc,
            ServiceName::Rs,
            ServiceName::Rsf,
            ServiceName::Api,
            ServiceName::S3,
        ],
    );
    assert_eq!(
        texts_of(&all.get_preferred()),
        ["up1.z0.com", "up2.z0.com", "io.z0.com", "uc.z0.com", "rs.z0.com", "rsf.z0.com", "api.z0.com", "s3.z0.com"]
    );
}

#[test]
fn endpoints_of_no_service_are_empty() {
    let r = region("z0");
    assert!(endpoints_of_region(&r, &Vec::new()).is_empty());
}

#[test]
fn endpoints_provider_uses_the_first_region_only() {
    let regions = RegionsProvider::new(vec![region("z0"), region("z1")]).unwrap();
    let mut provider = EndpointsProvider::new(regions);
    match provider.get_endpoints(Some(vec![ServiceName::Up]), 0) {
        EndpointsPlan::Serve(e) => assert!(e == region("z0").get_up()),
        other => panic!("not served: {:?}", other),
    }
    match provider.get_endpoints(Some(vec![ServiceName::Rs, ServiceName::Rsf]), 9) {
        EndpointsPlan::Serve(e) => {
            assert_eq!(texts_of(&e.get_preferred()), ["rs.z0.com", "rsf.z0.com"]);
            assert!(e.get_alternative().is_empty());
        }
        other => panic!("not served: {:?}", other),
    }
    match provider.get_endpoints(None, 9) {
        EndpointsPlan::Serve(e) => assert!(e.is_empty()),
        other => panic!("not served: {:?}", other),
    }
}

#[test]
fn fixed_endpoints_are_served_whatever_is_asked() {
    let fixed = Endpoints::new(eps(&["a.com"]), Some(eps(&["b.com"])));
    let mut provider = EndpointsProvider::from_endpoints(fixed.clone());
    for names in [None, Some(vec![ServiceName::Up]), Some(vec![ServiceName::S3, ServiceName::Io])] {
        match provider.get_endpoints(names.clone(), 3) {
            EndpointsPlan::Serve(e) => assert!(e == fixed),
            other => panic!("not served: {:?}", other),
        }
        let done = provider.complete_discovery(names, 3, Ok(vec![region("z9")]));
        assert!(done.answer.unwrap() == fixed);
        assert!(!done.persist);
    }
}

#[test]
fn builder_defaults() {
    let config = AllRegionsProvider::new_builder(false, None, None, None);
    assert!(!config.use_https());
    assert!(config.uc_endpoints().is_none());
    assert_eq!(config.cache_lifetime(), 86400);
    assert_eq!(config.shrink_interval(), 86400);
    assert_eq!(DEFAULT_CACHE_LIFETIME, 86400);
    assert_eq!(DEFAULT_SHRINK_INTERVAL, 86400);
    let uc = Endpoints::new(eps(&["uc.qbox.me"]), None);
    let config = AllRegionsProvider::new_builder(true, Some(uc.clone()), Some(5), Some(7));
    assert!(config.use_https());
    assert!(config.uc_endpoints().unwrap() == uc);
    assert_eq!(config.cache_lifetime(), 5);
    assert_eq!(config.shrink_interval(), 7);
}

#[test]
fn construction_modes() {
    let p = AllRegionsProvider::in_memory(true, None, Some(5), None, 0);
    assert!(matches!(p.persistence(), Persistence::InMemory));
    assert!(p.config().use_https());
    assert_eq!(p.config().cache_lifetime(), 5);
    let p = AllRegionsProvider::new(true, false, None, None, None, None, 0);
    assert!(matches!(p.persistence(), Persistence::DefaultPath { auto_persistent: true }));
    let p = AllRegionsProvider::load_or_create_from("/tmp/regions.json".to_string(), false, false, None, None, None, None, 0);
    match p.persistence() {
        Persistence::Path { path, auto_persistent } => {
            assert_eq!(path, "/tmp/regions.json");
            assert!(!*auto_persistent);
        }
        other => panic!("unexpected: {:?}", other),
    }
}

#[test]
fn cache_follows_its_lifetime() {
    let ttl = 100;
    let mut p = AllRegionsProvider::in_memory(false, None, Some(ttl), None, 0);
    assert_eq!(p.state(0), CacheState::Empty);
    assert!(matches!(p.begin_get_all(0), Plan::Discover));
    let done = p.complete_discovery(0, Ok(vec![region("z0"), region("z1")]));
    assert_eq!(ids(&done.answer.unwrap()), ["z0", "z1"]);
    assert!(!done.persist);

    assert_eq!(p.state(ttl - 1), CacheState::Fresh);
    assert_eq!(ids(&served(p.begin_get_all(ttl - 1))), ["z0", "z1"]);
    match p.begin_get(ttl - 1) {
        RegionPlan::Serve(r) => assert!(r == region("z0")),
        other => panic!("not served: {:?}", other),
    }

    assert_eq!(p.state(ttl), CacheState::Stale);
    assert_eq!(p.state(ttl + 1), CacheState::Stale);
    assert!(matches!(p.begin_get_all(ttl + 1), Plan::Discover));
    let done = p.complete_discovery(ttl + 2, Ok(vec![region("z2")]));
    assert_eq!(ids(&done.answer.unwrap()), ["z2"]);
    assert_eq!(p.state(ttl + 2 + ttl - 1), CacheState::Fresh);
    assert_eq!(ids(&served(p.begin_get_all(ttl + 2 + ttl - 1))), ["z2"]);
    assert_eq!(p.state(ttl + 2 + ttl), CacheState::Stale);
}

#[test]
fn a_clock_that_goes_back_keeps_the_entry_fresh() {
    let mut p = AllRegionsProvider::in_memory(false, None, Some(10), None, 1000);
    assert!(matches!(p.begin_get_all(1000), Plan::Discover));
    p.complete_discovery(1000, Ok(vec![region("z0")]));
    assert_eq!(p.state(5), CacheState::Fresh);
}

#[test]
fn failed_refresh_serves_what_was_last_found() {
    let mut p = AllRegionsProvider::in_memory(false, None, Some(100), None, 0);
    assert!(matches!(p.begin_get_all(0), Plan::Discover));
    p.complete_discovery(0, Ok(vec![region("z0")]));
    assert!(matches!(p.begin_get_all(101), Plan::Discover));
    let done = p.complete_discovery(102, Err(ApiCallError::new("connection refused".to_string())));
    assert_eq!(ids(&done.answer.unwrap()), ["z0"]);
    assert!(!done.persist);
    assert_eq!(p.state(102), CacheState::Stale);
    assert_eq!(p.snapshot().unwrap().fetched_at, 0);
}

#[test]
fn failed_first_discovery_is_an_error() {
    let mut p = AllRegionsProvider::in_memory(false, None, Some(100), None, 0);
    assert!(matches!(p.begin_get(0), RegionPlan::Discover));
    let done = p.complete_discovery(1, Err(ApiCallError::new("connection refused".to_string())));
    assert_eq!(done.answer.unwrap_err().message(), "connection refused");
    assert_eq!(p.state(1), CacheState::Empty);
    assert!(p.snapshot().is_none());
}

#[test]
fn discovery_of_no_region_is_an_error() {
    let mut p = AllRegionsProvider::in_memory(false, None, Some(100), None, 0);
    assert!(matches!(p.begin_get_all(0), Plan::Discover));
    let done = p.complete_discovery(1, Ok(Vec::new()));
    assert_eq!(done.answer.unwrap_err().message(), "Regions API returns empty regions");
    assert_eq!(p.state(1), CacheState::Empty);

    assert!(matches!(p.begin_get_all(2), Plan::Discover));
    p.complete_discovery(2, Ok(vec![region("z0")]));
    assert!(matches!(p.begin_get_all(200), Plan::Discover));
    let done = p.complete_discovery(201, Ok(Vec::new()));
    assert_eq!(ids(&done.answer.unwrap()), ["z0"]);
}

#[test]
fn one_discovery_at_a_time() {
    let mut p = AllRegionsProvider::in_memory(false, None, Some(100), None, 0);
    assert!(matches!(p.begin_get_all(0), Plan::Discover));
    assert!(matches!(p.begin_get_all(0), Plan::Join));
    assert!(matches!(p.begin_get(1), RegionPlan::Join));
    p.cancel_discovery();
    assert_eq!(p.state(1), CacheState::Empty);
    assert!(matches!(p.begin_get_all(2), Plan::Discover));
    p.complete_discovery(3, Ok(vec![region("z0")]));
    assert_eq!(ids(&served(p.begin_get_all(4))), ["z0"]);
    assert!(matches!(p.begin_get_all(500), Plan::Discover));
    assert!(matches!(p.begin_get_all(500), Plan::Join));
    p.cancel_discovery();
    assert_eq!(p.snapshot().unwrap().fetched_at, 3);
    assert!(matches!(p.begin_get_all(500), Plan::Discover));
}

#[test]
fn write_through_follows_auto_persistent() {
    let mut on = AllRegionsProvider::load_or_create_from("cache".to_string(), true, false, None, Some(10), None, None, 0);
    on.begin_get_all(0);
    assert!(on.complete_discovery(0, Ok(vec![region("z0")])).persist);
    on.begin_get_all(20);
    assert!(!on.complete_discovery(20, Err(ApiCallError::new("down".to_string()))).persist);

    let mut off = AllRegionsProvider::load_or_create_from("cache".to_string(), false, false, None, Some(10), None, None, 0);
    off.begin_get_all(0);
    assert!(!off.complete_discovery(0, Ok(vec![region("z0")])).persist);

    let mut default_path = AllRegionsProvider::new(true, false, None, Some(10), None, None, 0);
    default_path.begin_get_all(0);
    assert!(default_path.complete_discovery(0, Ok(vec![region("z0")])).persist);
}

#[test]
fn stored_cache_is_served_until_its_lifetime_has_passed() {
    let mut first = AllRegionsProvider::load_or_create_from("cache".to_string(), true, false, None, Some(100), None, None, 0);
    first.begin_get_all(10);
    first.complete_discovery(10, Ok(vec![region("z0"), region("z1")]));
    let stored = first.snapshot().unwrap();
    assert_eq!(stored.fetched_at, 10);
    assert_eq!(stored.ttl, 100);
    assert_eq!(ids(&stored.regions), ["z0", "z1"]);

    let mut second = AllRegionsProvider::load_or_create_from("cache".to_string(), true, false, None, Some(100), None, Some(stored.clone()), 50);
    assert_eq!(second.state(50), CacheState::Fresh);
    assert_eq!(ids(&served(second.begin_get_all(109))), ["z0", "z1"]);
    assert!(matches!(second.begin_get_all(110), Plan::Discover));

    let mut late = AllRegionsProvider::load_or_create_from("cache".to_string(), true, false, None, Some(100), None, Some(stored), 110);
    assert_eq!(late.state(110), CacheState::Empty);
    assert!(matches!(late.begin_get_all(110), Plan::Discover));
    let done = late.complete_discovery(111, Err(ApiCallError::new("offline".to_string())));
    assert_eq!(done.answer.unwrap_err().message(), "offline");
}

#[test]
fn stored_cache_without_regions_is_ignored() {
    let stored = CacheEntry { regions: Vec::new(), fetched_at: 0, ttl: 100 };
    let p = AllRegionsProvider::new(true, false, None, None, None, Some(stored), 1);
    assert_eq!(p.state(1), CacheState::Empty);
}

#[test]
fn shrink_purges_what_is_stale_for_longer_than_the_interval() {
    let mut p = AllRegionsProvider::in_memory(false, None, Some(100), Some(50), 0);
    p.begin_get_all(0);
    p.complete_discovery(0, Ok(vec![region("z0")]));
    assert!(!p.shrink(50));
    assert!(!p.shrink(150));
    assert!(p.snapshot().is_some());
    assert!(p.shrink(201));
    assert!(p.snapshot().is_none());
    assert_eq!(p.state(201), CacheState::Empty);
    assert!(!p.shrink(400));
}

#[test]
fn shrink_purges_right_after_the_grace_period() {
    let mut p = AllRegionsProvider::in_memory(false, None, Some(100), Some(50), 0);
    p.begin_get_all(0);
    p.complete_discovery(0, Ok(vec![region("z0")]));
    assert!(p.shrink(151));
    assert!(p.snapshot().is_none());
}

#[test]
fn shrink_waits_for_its_interval() {
    let mut p = AllRegionsProvider::in_memory(false, None, Some(100), Some(50), 0);
    p.begin_get_all(0);
    p.complete_discovery(0, Ok(vec![region("z0")]));
    assert!(!p.shrink(145));
    assert!(!p.shrink(151));
    assert!(!p.shrink(195));
    assert!(p.snapshot().is_some());
    assert!(p.shrink(196));
    assert!(p.snapshot().is_none());
}

#[test]
fn endpoints_provider_over_discovered_regions() {
    let all = AllRegionsProvider::in_memory(false, None, Some(100), None, 0);
    let mut provider = EndpointsProvider::new(RegionsProvider::from_all_regions_provider(all));
    assert!(matches!(provider.get_endpoints(Some(vec![ServiceName::Up]), 0), EndpointsPlan::Discover));
    assert!(matches!(provider.get_endpoints(Some(vec![ServiceName::Up]), 0), EndpointsPlan::Join));
    let done = provider.complete_discovery(Some(vec![ServiceName::Up]), 1, Ok(vec![region("z3"), region("z4")]));
    assert!(done.answer.unwrap() == region("z3").get_up());
    match provider.get_endpoints(Some(vec![ServiceName::Io]), 50) {
        EndpointsPlan::Serve(e) => assert!(e == region("z3").get_io()),
        other => panic!("not served: {:?}", other),
    }
    assert!(matches!(provider.get_endpoints(None, 101), EndpointsPlan::Discover));
    let done = provider.complete_discovery(Some(vec![ServiceName::Rs]), 102, Err(ApiCallError::new("down".to_string())));
    assert!(done.answer.unwrap() == region("z3").get_rs());
}

#[test]
fn endpoints_provider_passes_the_error_on() {
    let all = AllRegionsProvider::in_memory(false, None, None, None, 0);
    let mut provider = EndpointsProvider::new(RegionsProvider::from_all_regions_provider(all));
    assert!(matches!(provider.get_endpoints(None, 0), EndpointsPlan::Discover));
    let done = provider.complete_discovery(None, 1, Err(ApiCallError::new("unauthorized".to_string())));
    assert_eq!(done.answer.unwrap_err().message(), "unauthorized");
    assert!(!done.persist);
}
