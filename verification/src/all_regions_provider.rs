//! The provider that discovers every region from the directory service,
//! keeps what it found for a lifetime, serves what it last found where a
//! refresh fails, and can hand its cache out to be stored.
//!
//! The provider makes no request and reads no clock itself. It decides: the
//! caller tells it the time, does the discovery it asks for, and reports how
//! that went.

use crate::endpoints::Endpoints;
use crate::endpoints::EndpointsView;
use crate::region::Region;
use crate::region::RegionView;
use crate::regions_provider::chosen_region;
use crate::regions_provider::clone_region_list;
use crate::regions_provider::region_views;
use vstd::prelude::*;
use vstd::string::*;

verus! {

/// The seconds for which discovered regions stay fresh where no lifetime is
/// given.
pub const DEFAULT_CACHE_LIFETIME: u64 = 86400;

/// The seconds between two shrink passes where no interval is given.
pub const DEFAULT_SHRINK_INTERVAL: u64 = 86400;

/// A call of the directory service that did not give regions.
#[derive(Debug)]
pub struct ApiCallError {
    message: String,
}

impl View for ApiCallError {
    type V = Seq<char>;

    closed spec fn view(&self) -> Seq<char> {
        self.message@
    }
}

impl ApiCallError {
    /// The error with the given message.
    pub fn new(message: String) -> (r: Self)
        ensures
            r@ == message@,
    {
        ApiCallError { message }
    }

    /// The message of the error.
    pub fn message(&self) -> (r: &str)
        ensures
            r@ == self@,
    {
        self.message.as_str()
    }
}

impl Clone for ApiCallError {
    fn clone(&self) -> (r: Self)
        ensures
            r@ == self@,
    {
        ApiCallError { message: self.message.clone() }
    }
}

/// The message of the error for a discovery that found no region.
pub open spec fn empty_regions_message() -> Seq<char> {
    "Regions API returns empty regions"@
}

/// Where the cache is kept besides memory.
#[derive(Debug)]
pub enum Persistence {
    /// Nowhere.
    InMemory,
    /// In the file at the default path.
    DefaultPath { auto_persistent: bool },
    /// In the file at the given path.
    Path { path: String, auto_persistent: bool },
}

/// Whether every successful discovery is to be stored.
pub open spec fn writes_through(persistence: Persistence) -> bool {
    match persistence {
        Persistence::InMemory => false,
        Persistence::DefaultPath { auto_persistent } => auto_persistent,
        Persistence::Path { auto_persistent, .. } => auto_persistent,
    }
}

/// What the builder settles: how to reach the directory service and how
/// long to keep what it says.
pub struct DiscoveryConfigView {
    pub use_https: bool,
    pub uc_endpoints: Option<EndpointsView>,
    pub cache_lifetime: u64,
    pub shrink_interval: u64,
}

/// How to reach the directory service and how long to keep what it says.
#[derive(Debug)]
pub struct DiscoveryConfig {
    use_https: bool,
    uc_endpoints: Option<Endpoints>,
    cache_lifetime: u64,
    shrink_interval: u64,
}

impl View for DiscoveryConfig {
    type V = DiscoveryConfigView;

    closed spec fn view(&self) -> DiscoveryConfigView {
        DiscoveryConfigView {
            use_https: self.use_https,
            uc_endpoints: match self.uc_endpoints {
                Some(e) => Some(e@),
                None => None,
            },
            cache_lifetime: self.cache_lifetime,
            shrink_interval: self.shrink_interval,
        }
    }
}

impl DiscoveryConfig {
    /// Whether the directory service is reached over HTTPS.
    pub fn use_https(&self) -> (r: bool)
        ensures
            r == self@.use_https,
    {
        self.use_https
    }

    /// The endpoints of the directory service; none stands for the
    /// service's public endpoints.
    pub fn uc_endpoints(&self) -> (r: Option<Endpoints>)
        ensures
            match r {
                Some(e) => self@.uc_endpoints == Some(e@),
                None => self@.uc_endpoints is None,
            },
    {
        match &self.uc_endpoints {
            Some(e) => Some(e.clone()),
            None => None,
        }
    }

    /// The seconds for which discovered regions stay fresh.
    pub fn cache_lifetime(&self) -> (r: u64)
        ensures
            r == self@.cache_lifetime,
    {
        self.cache_lifetime
    }

    /// The seconds between two shrink passes.
    pub fn shrink_interval(&self) -> (r: u64)
        ensures
            r == self@.shrink_interval,
    {
        self.shrink_interval
    }
}

/// The mathematical value of a cache entry.
pub struct CacheEntryView {
    pub regions: Seq<RegionView>,
    pub fetched_at: u64,
    pub ttl: u64,
}

/// What was discovered, when, and for how long it stays fresh. Times are in
/// seconds.
#[derive(Debug)]
pub struct CacheEntry {
    pub regions: Vec<Region>,
    pub fetched_at: u64,
    pub ttl: u64,
}

impl View for CacheEntry {
    type V = CacheEntryView;

    open spec fn view(&self) -> CacheEntryView {
        CacheEntryView {
            regions: region_views(self.regions@),
            fetched_at: self.fetched_at,
            ttl: self.ttl,
        }
    }
}

impl Clone for CacheEntry {
    fn clone(&self) -> (r: Self)
        ensures
            r@ == self@,
    {
        CacheEntry {
            regions: clone_region_list(&self.regions),
            fetched_at: self.fetched_at,
            ttl: self.ttl,
        }
    }
}

/// An entry is fresh while less than its lifetime has passed since it was
/// fetched.
pub open spec fn is_fresh(entry: CacheEntryView, now: u64) -> bool {
    now - entry.fetched_at < entry.ttl
}

/// An entry can be purged once it has been stale for more than the shrink
/// interval.
pub open spec fn is_purgeable(entry: CacheEntryView, shrink_interval: u64, now: u64) -> bool {
    now - entry.fetched_at > entry.ttl + shrink_interval
}

/// A stored entry is usable where it holds a region and is still fresh.
pub open spec fn is_usable(entry: CacheEntryView, now: u64) -> bool {
    entry.regions.len() > 0 && is_fresh(entry, now)
}

/// The mathematical value of the provider's cache.
pub struct CacheView {
    pub entry: Option<CacheEntryView>,
    pub in_flight: bool,
    pub last_shrink_at: u64,
    pub cache_lifetime: u64,
    pub shrink_interval: u64,
    pub writes_through: bool,
}

/// The state of the cache at a time.
#[derive(Clone, Copy, Debug, PartialEq, Eq, Structural)]
pub enum CacheState {
    /// Nothing was discovered yet.
    Empty,
    /// What was discovered is within its lifetime.
    Fresh,
    /// What was discovered has outlived its lifetime.
    Stale,
}

/// The state of a cache at the time `now`.
pub open spec fn state_at(cache: CacheView, now: u64) -> CacheState {
    match cache.entry {
        None => CacheState::Empty,
        Some(entry) => if is_fresh(entry, now) {
            CacheState::Fresh
        } else {
            CacheState::Stale
        },
    }
}

/// What a caller that asks for regions is to do.
pub enum PlanView {
    /// Take these regions; no discovery is called for.
    Serve(Seq<RegionView>),
    /// Discover the regions and report the outcome.
    Discover,
    /// A discovery is under way: wait for its outcome.
    Join,
}

/// What a caller is to do at the time `now`: a fresh entry is served; else
/// one discovery is made at a time.
pub open spec fn plan_at(cache: CacheView, now: u64) -> PlanView {
    match state_at(cache, now) {
        CacheState::Fresh => PlanView::Serve(cache.entry->0.regions),
        _ => if cache.in_flight {
            PlanView::Join
        } else {
            PlanView::Discover
        },
    }
}

/// The cache after a caller was told what to do: a discovery that was asked
/// for is under way.
pub open spec fn after_begin(cache: CacheView, now: u64) -> CacheView {
    if plan_at(cache, now) is Discover {
        CacheView { in_flight: true, ..cache }
    } else {
        cache
    }
}

/// How a discovery went.
pub enum OutcomeView {
    Found(Seq<RegionView>),
    Failed(Seq<char>),
}

/// The outcome replaces the cache entry: it holds at least one region.
pub open spec fn is_accepted(outcome: OutcomeView) -> bool {
    outcome matches OutcomeView::Found(regions) && regions.len() > 0
}

/// The error of an outcome that is not accepted.
pub open spec fn outcome_error(outcome: OutcomeView) -> Seq<char> {
    match outcome {
        OutcomeView::Found(_) => empty_regions_message(),
        OutcomeView::Failed(message) => message,
    }
}

/// The cache after a discovery has ended at the time `now`: an accepted
/// outcome replaces the entry as a whole, any other leaves it as it was.
pub open spec fn after_complete(cache: CacheView, now: u64, outcome: OutcomeView) -> CacheView {
    match outcome {
        OutcomeView::Found(regions) if regions.len() > 0 => CacheView {
            entry: Some(
                CacheEntryView { regions: regions, fetched_at: now, ttl: cache.cache_lifetime },
            ),
            in_flight: false,
            ..cache
        },
        _ => CacheView { in_flight: false, ..cache },
    }
}

/// What the caller gets once a discovery has ended: the regions found; where
/// it failed, the regions last found; where there are none, the error.
pub open spec fn answer_after(cache: CacheView, outcome: OutcomeView) -> Result<
    Seq<RegionView>,
    Seq<char>,
> {
    match outcome {
        OutcomeView::Found(regions) if regions.len() > 0 => Ok(regions),
        _ => match cache.entry {
            Some(entry) => Ok(entry.regions),
            None => Err(outcome_error(outcome)),
        },
    }
}

/// Whether a shrink pass is due at the time `now`.
pub open spec fn shrink_is_due(cache: CacheView, now: u64) -> bool {
    now - cache.last_shrink_at > cache.shrink_interval
}

/// The cache after it was offered a shrink pass at the time `now`: a pass
/// that is due purges the entry that can be purged.
pub open spec fn after_shrink(cache: CacheView, now: u64) -> CacheView {
    if shrink_is_due(cache, now) {
        CacheView {
            entry: match cache.entry {
                Some(entry) => if is_purgeable(entry, cache.shrink_interval, now) {
                    None
                } else {
                    Some(entry)
                },
                None => None,
            },
            last_shrink_at: now,
            ..cache
        }
    } else {
        cache
    }
}

/// The cache of a provider made at the time `now` from what was stored: a
/// stored entry is taken where it is usable.
pub open spec fn restored(
    stored: Option<CacheEntryView>,
    cache_lifetime: u64,
    shrink_interval: u64,
    writes_through: bool,
    now: u64,
) -> CacheView {
    CacheView {
        entry: match stored {
            Some(entry) => if is_usable(entry, now) {
                Some(entry)
            } else {
                None
            },
            None => None,
        },
        in_flight: false,
        last_shrink_at: now,
        cache_lifetime,
        shrink_interval,
        writes_through,
    }
}

/// Every entry of the cache holds a region.
pub open spec fn cache_is_sound(cache: CacheView) -> bool {
    cache.entry matches Some(entry) ==> entry.regions.len() > 0
}

/// What a caller that asks for every region is to do.
#[derive(Debug)]
pub enum Plan {
    /// Take these regions; no discovery is called for.
    Serve(Vec<Region>),
    /// Discover the regions and report the outcome.
    Discover,
    /// A discovery is under way: wait for its outcome.
    Join,
}

impl View for Plan {
    type V = PlanView;

    open spec fn view(&self) -> PlanView {
        match self {
            Plan::Serve(regions) => PlanView::Serve(region_views(regions@)),
            Plan::Discover => PlanView::Discover,
            Plan::Join => PlanView::Join,
        }
    }
}

/// What a caller that asks for one region is to do.
#[derive(Debug)]
pub enum RegionPlan {
    /// Take this region; no discovery is called for.
    Serve(Region),
    /// Discover the regions and report the outcome.
    Discover,
    /// A discovery is under way: wait for its outcome.
    Join,
}

/// The outcome of a discovery as the caller reports it.
pub open spec fn outcome_view(outcome: Result<Vec<Region>, ApiCallError>) -> OutcomeView {
    match outcome {
        Ok(regions) => OutcomeView::Found(region_views(regions@)),
        Err(e) => OutcomeView::Failed(e@),
    }
}

/// The answer to a caller as a mathematical value.
pub open spec fn answer_view(answer: Result<Vec<Region>, ApiCallError>) -> Result<
    Seq<RegionView>,
    Seq<char>,
> {
    match answer {
        Ok(regions) => Ok(region_views(regions@)),
        Err(e) => Err(e@),
    }
}

/// What the provider hands back once a discovery has ended.
#[derive(Debug)]
pub struct Completion {
    /// The answer to the caller.
    pub answer: Result<Vec<Region>, ApiCallError>,
    /// Whether the cache is to be stored now.
    pub persist: bool,
}

/// Whether less than the entry's lifetime has passed since it was fetched.
pub fn entry_is_fresh(entry: &CacheEntry, now: u64) -> (r: bool)
    ensures
        r == is_fresh(entry@, now),
{
    now < entry.fetched_at || now - entry.fetched_at < entry.ttl
}

/// Whether the entry has been stale for more than the shrink interval.
pub fn entry_is_purgeable(entry: &CacheEntry, shrink_interval: u64, now: u64) -> (r: bool)
    ensures
        r == is_purgeable(entry@, shrink_interval, now),
{
    now > entry.fetched_at && (now - entry.fetched_at) as u128 > entry.ttl as u128
        + shrink_interval as u128
}

/// The provider of every region of the storage service.
#[derive(Debug)]
pub struct AllRegionsProvider {
    config: DiscoveryConfig,
    persistence: Persistence,
    entry: Option<CacheEntry>,
    in_flight: bool,
    last_shrink_at: u64,
}

impl View for AllRegionsProvider {
    type V = CacheView;

    closed spec fn view(&self) -> CacheView {
        CacheView {
            entry: match self.entry {
                Some(e) => Some(e@),
                None => None,
            },
            in_flight: self.in_flight,
            last_shrink_at: self.last_shrink_at,
            cache_lifetime: self.config.cache_lifetime,
            shrink_interval: self.config.shrink_interval,
            writes_through: writes_through(self.persistence),
        }
    }
}

/// The stored entry as a mathematical value.
pub open spec fn stored_view(stored: Option<CacheEntry>) -> Option<CacheEntryView> {
    match stored {
        Some(e) => Some(e@),
        None => None,
    }
}

/// The setting that is given, or else the default.
pub open spec fn setting_or(given: Option<u64>, default: u64) -> u64 {
    match given {
        Some(value) => value,
        None => default,
    }
}

impl AllRegionsProvider {
    #[verifier::type_invariant]
    spec fn inv(self) -> bool {
        cache_is_sound(self@)
    }

    /// The configuration of that provider as a mathematical value.
    pub closed spec fn config_view(&self) -> DiscoveryConfigView {
        self.config@
    }

    /// Where that provider keeps its cache.
    pub closed spec fn persistence_view(&self) -> Persistence {
        self.persistence
    }

    /// Settles how to reach the directory service: a lifetime or an
    /// interval that is not given is a day.
    pub fn new_builder(
        use_https: bool,
        uc_endpoints: Option<Endpoints>,
        cache_lifetime: Option<u64>,
        shrink_interval: Option<u64>,
    ) -> (r: DiscoveryConfig)
        ensures
            r@.use_https == use_https,
            r@.uc_endpoints == match uc_endpoints {
                Some(e) => Some(e@),
                None => None::<EndpointsView>,
            },
            r@.cache_lifetime == setting_or(cache_lifetime, DEFAULT_CACHE_LIFETIME),
            r@.shrink_interval == setting_or(shrink_interval, DEFAULT_SHRINK_INTERVAL),
    {
        let cache_lifetime = match cache_lifetime {
            Some(seconds) => seconds,
            None => DEFAULT_CACHE_LIFETIME,
        };
        let shrink_interval = match shrink_interval {
            Some(seconds) => seconds,
            None => DEFAULT_SHRINK_INTERVAL,
        };
        DiscoveryConfig { use_https, uc_endpoints, cache_lifetime, shrink_interval }
    }

    /// The provider with the given configuration, made at the time `now`.
    /// What was stored is taken where it holds a region and is still fresh.
    pub fn from_config(
        config: DiscoveryConfig,
        persistence: Persistence,
        stored: Option<CacheEntry>,
        now: u64,
    ) -> (r: Self)
        ensures
            r.config_view() == config@,
            r.persistence_view() == persistence,
            r@ == restored(
                stored_view(stored),
                config@.cache_lifetime,
                config@.shrink_interval,
                writes_through(persistence),
                now,
            ),
    {
        let entry = match stored {
            Some(e) => if e.regions.len() > 0 && entry_is_fresh(&e, now) {
                assert(region_views(e.regions@).len() == e.regions.len());
                Some(e)
            } else {
                assert(region_views(e.regions@).len() == e.regions.len());
                None
            },
            None => None,
        };
        AllRegionsProvider { config, persistence, entry, in_flight: false, last_shrink_at: now }
    }

    /// The provider that keeps its cache in the file at the default path.
    /// `stored` is what that file held, if it could be read.
    pub fn new(
        auto_persistent: bool,
        use_https: bool,
        uc_endpoints: Option<Endpoints>,
        cache_lifetime: Option<u64>,
        shrink_interval: Option<u64>,
        stored: Option<CacheEntry>,
        now: u64,
    ) -> (r: Self)
        ensures
            r.persistence_view() == (Persistence::DefaultPath { auto_persistent }),
            r.config_view().use_https == use_https,
            r.config_view().uc_endpoints == match uc_endpoints {
                Some(e) => Some(e@),
                None => None::<EndpointsView>,
            },
            r@ == restored(
                stored_view(stored),
                setting_or(cache_lifetime, DEFAULT_CACHE_LIFETIME),
                setting_or(shrink_interval, DEFAULT_SHRINK_INTERVAL),
                auto_persistent,
                now,
            ),
    {
        let config = Self::new_builder(use_https, uc_endpoints, cache_lifetime, shrink_interval);
        Self::from_config(config, Persistence::DefaultPath { auto_persistent }, stored, now)
    }

    /// The provider that keeps its cache in the file at `path`. `stored` is
    /// what that file held, if it could be read.
    pub fn load_or_create_from(
        path: String,
        auto_persistent: bool,
        use_https: bool,
        uc_endpoints: Option<Endpoints>,
        cache_lifetime: Option<u64>,
        shrink_interval: Option<u64>,
        stored: Option<CacheEntry>,
        now: u64,
    ) -> (r: Self)
        ensures
            r.persistence_view() == (Persistence::Path { path, auto_persistent }),
            r.config_view().use_https == use_https,
            r.config_view().uc_endpoints == match uc_endpoints {
                Some(e) => Some(e@),
                None => None::<EndpointsView>,
            },
            r@ == restored(
                stored_view(stored),
                setting_or(cache_lifetime, DEFAULT_CACHE_LIFETIME),
                setting_or(shrink_interval, DEFAULT_SHRINK_INTERVAL),
                auto_persistent,
                now,
            ),
    {
        let config = Self::new_builder(use_https, uc_endpoints, cache_lifetime, shrink_interval);
        Self::from_config(config, Persistence::Path { path, auto_persistent }, stored, now)
    }

    /// The provider that keeps its cache in memory only.
    pub fn in_memory(
        use_https: bool,
        uc_endpoints: Option<Endpoints>,
        cache_lifetime: Option<u64>,
        shrink_interval: Option<u64>,
        now: u64,
    ) -> (r: Self)
        ensures
            r.persistence_view() == Persistence::InMemory,
            r.config_view().use_https == use_https,
            r.config_view().uc_endpoints == match uc_endpoints {
                Some(e) => Some(e@),
                None => None::<EndpointsView>,
            },
            r@ == restored(
                None,
                setting_or(cache_lifetime, DEFAULT_CACHE_LIFETIME),
                setting_or(shrink_interval, DEFAULT_SHRINK_INTERVAL),
                false,
                now,
            ),
    {
        let config = Self::new_builder(use_https, uc_endpoints, cache_lifetime, shrink_interval);
        Self::from_config(config, Persistence::InMemory, None, now)
    }

    /// The configuration of the provider.
    pub fn config(&self) -> (r: &DiscoveryConfig)
        ensures
            r@ == self.config_view(),
            r@.cache_lifetime == self@.cache_lifetime,
            r@.shrink_interval == self@.shrink_interval,
    {
        &self.config
    }

    /// Where the provider keeps its cache.
    pub fn persistence(&self) -> (r: &Persistence)
        ensures
            *r == self.persistence_view(),
            writes_through(*r) == self@.writes_through,
    {
        &self.persistence
    }

    /// The state of the cache at the time `now`.
    pub fn state(&self, now: u64) -> (r: CacheState)
        ensures
            r == state_at(self@, now),
    {
        match &self.entry {
            None => CacheState::Empty,
            Some(entry) => if entry_is_fresh(entry, now) {
                CacheState::Fresh
            } else {
                CacheState::Stale
            },
        }
    }

    /// Tells a caller that asks for every region at the time `now` what to
    /// do. A fresh entry is served. Else the caller is to discover the
    /// regions, unless a discovery is under way already.
    pub fn begin_get_all(&mut self, now: u64) -> (r: Plan)
        ensures
            r@ == plan_at(old(self)@, now),
            final(self)@ == after_begin(old(self)@, now),
            final(self).config_view() == old(self).config_view(),
            final(self).persistence_view() == old(self).persistence_view(),
            r matches Plan::Serve(regions) ==> regions.len() > 0,
    {
        proof {
            use_type_invariant(&*self);
        }
        match &self.entry {
            Some(entry) => {
                if entry_is_fresh(entry, now) {
                    let regions = clone_region_list(&entry.regions);
                    assert(region_views(regions@).len() == regions.len());
                    return Plan::Serve(regions);
                }
            },
            None => {},
        }
        if self.in_flight {
            Plan::Join
        } else {
            self.in_flight = true;
            Plan::Discover
        }
    }

    /// Tells a caller that asks for one region at the time `now` what to
    /// do: as for every region, and the region served is the first.
    pub fn begin_get(&mut self, now: u64) -> (r: RegionPlan)
        ensures
            match plan_at(old(self)@, now) {
                PlanView::Serve(regions) => r matches RegionPlan::Serve(region) && regions.len() > 0
                    && region@ == chosen_region(regions),
                PlanView::Discover => r is Discover,
                PlanView::Join => r is Join,
            },
            final(self)@ == after_begin(old(self)@, now),
            final(self).config_view() == old(self).config_view(),
            final(self).persistence_view() == old(self).persistence_view(),
    {
        match self.begin_get_all(now) {
            Plan::Serve(regions) => {
                assert(region_views(regions@)[0] == regions[0]@);
                RegionPlan::Serve(regions[0].clone())
            },
            Plan::Discover => RegionPlan::Discover,
            Plan::Join => RegionPlan::Join,
        }
    }

    /// Takes the outcome of a discovery that ended at the time `now`.
    /// Regions that were found replace the cache entry as a whole and are
    /// the answer. A discovery that failed, or found no region, leaves the
    /// entry as it was: the answer is what the entry holds, however old,
    /// and the error only where there is no entry.
    pub fn complete_discovery(&mut self, now: u64, outcome: Result<Vec<Region>, ApiCallError>) -> (r:
        Completion)
        ensures
            final(self)@ == after_complete(old(self)@, now, outcome_view(outcome)),
            answer_view(r.answer) == answer_after(old(self)@, outcome_view(outcome)),
            r.persist == (is_accepted(outcome_view(outcome)) && old(self)@.writes_through),
            r.answer matches Ok(regions) ==> regions.len() > 0,
            final(self).config_view() == old(self).config_view(),
            final(self).persistence_view() == old(self).persistence_view(),
    {
        proof {
            use_type_invariant(&*self);
        }
        self.in_flight = false;
        let error = match outcome {
            Ok(regions) => {
                assert(region_views(regions@).len() == regions.len());
                if regions.len() > 0 {
                    let answer = clone_region_list(&regions);
                    assert(region_views(answer@).len() == answer.len());
                    self.entry = Some(
                        CacheEntry { regions, fetched_at: now, ttl: self.config.cache_lifetime },
                    );
                    let persist = match &self.persistence {
                        Persistence::InMemory => false,
                        Persistence::DefaultPath { auto_persistent } => *auto_persistent,
                        Persistence::Path { auto_persistent, .. } => *auto_persistent,
                    };
                    return Completion { answer: Ok(answer), persist };
                }
                ApiCallError::new(String::from_str("Regions API returns empty regions"))
            },
            Err(e) => e,
        };
        match &self.entry {
            Some(entry) => {
                let answer = clone_region_list(&entry.regions);
                assert(region_views(answer@).len() == answer.len());
                assert(region_views(entry.regions@).len() == entry.regions.len());
                Completion { answer: Ok(answer), persist: false }
            },
            None => Completion { answer: Err(error), persist: false },
        }
    }

    /// Takes note that the discovery under way was given up: the cache
    /// stays as it was, and the next caller may discover again.
    pub fn cancel_discovery(&mut self)
        ensures
            final(self)@ == (CacheView { in_flight: false, ..old(self)@ }),
            final(self).config_view() == old(self).config_view(),
            final(self).persistence_view() == old(self).persistence_view(),
    {
        proof {
            use_type_invariant(&*self);
        }
        self.in_flight = false;
    }

    /// Offers the cache a shrink pass at the time `now`, and says whether
    /// an entry was purged.
    pub fn shrink(&mut self, now: u64) -> (purged: bool)
        ensures
            final(self)@ == after_shrink(old(self)@, now),
            purged == (old(self)@.entry is Some && final(self)@.entry is None),
            final(self).config_view() == old(self).config_view(),
            final(self).persistence_view() == old(self).persistence_view(),
    {
        proof {
            use_type_invariant(&*self);
        }
        let due = now > self.last_shrink_at && now - self.last_shrink_at
            > self.config.shrink_interval;
        if !due {
            return false;
        }
        self.last_shrink_at = now;
        let purge = match &self.entry {
            Some(entry) => entry_is_purgeable(entry, self.config.shrink_interval, now),
            None => false,
        };
        if purge {
            self.entry = None;
        }
        purge
    }

    /// What the cache holds, to be stored.
    pub fn snapshot(&self) -> (r: Option<CacheEntry>)
        ensures
            stored_view(r) == self@.entry,
    {
        match &self.entry {
            Some(entry) => Some(entry.clone()),
            None => None,
        }
    }
}

/// A provider that has found nothing yet, and has no discovery under way,
/// asks for a discovery.
pub proof fn lemma_empty_cache_discovers(cache: CacheView, now: u64)
    requires
        cache.entry is None,
        !cache.in_flight,
    ensures
        state_at(cache, now) == CacheState::Empty,
        plan_at(cache, now) is Discover,
{
}

/// Once regions were found at the time `fetched_at`, the lifetime decides:
/// a caller that comes before it has passed is served these regions and no
/// discovery is asked for; a caller that comes when it has passed is asked
/// to refresh.
pub proof fn lemma_lifetime_decides(
    cache: CacheView,
    fetched_at: u64,
    regions: Seq<RegionView>,
    now: u64,
)
    requires
        regions.len() > 0,
        fetched_at <= now,
    ensures
        ({
            let filled = after_complete(cache, fetched_at, OutcomeView::Found(regions));
            &&& now - fetched_at < cache.cache_lifetime ==> {
                &&& state_at(filled, now) == CacheState::Fresh
                &&& plan_at(filled, now) == PlanView::Serve(regions)
                &&& after_begin(filled, now) == filled
            }
            &&& now - fetched_at >= cache.cache_lifetime ==> {
                &&& state_at(filled, now) == CacheState::Stale
                &&& plan_at(filled, now) is Discover
            }
        }),
{
}

/// A refresh that fails leaves the cache entry as it was. Where there is
/// an entry, however old, the caller gets its regions and no error; where
/// there is none, the caller gets the error.
pub proof fn lemma_failed_refresh_serves_last_found(cache: CacheView, now: u64, message: Seq<char>)
    ensures
        after_complete(cache, now, OutcomeView::Failed(message)).entry == cache.entry,
        cache.entry matches Some(entry) ==> answer_after(cache, OutcomeView::Failed(message)) == Ok::<
            Seq<RegionView>,
            Seq<char>,
        >(entry.regions),
        cache.entry is None ==> answer_after(cache, OutcomeView::Failed(message)) == Err::<
            Seq<RegionView>,
            Seq<char>,
        >(message),
{
}

/// A provider made from what another has stored serves the stored regions,
/// with no discovery, for as long as they are fresh; once they are stale it
/// starts empty and asks for a discovery.
pub proof fn lemma_stored_cache_is_served(
    cache: CacheView,
    cache_lifetime: u64,
    shrink_interval: u64,
    writes_through: bool,
    now: u64,
)
    requires
        cache_is_sound(cache),
    ensures
        ({
            let fresh_start = restored(
                cache.entry,
                cache_lifetime,
                shrink_interval,
                writes_through,
                now,
            );
            &&& cache_is_sound(fresh_start)
            &&& state_at(cache, now) == CacheState::Fresh ==> plan_at(fresh_start, now)
                == PlanView::Serve(cache.entry->0.regions)
            &&& state_at(cache, now) != CacheState::Fresh ==> plan_at(fresh_start, now) is Discover
        }),
{
}

/// No step leaves a cache entry half made: the entry after a step is the
/// entry before it, or the whole of what was found, or, after a shrink
/// pass, none. A sound cache stays sound.
pub proof fn lemma_entry_changes_as_a_whole(cache: CacheView, now: u64, outcome: OutcomeView)
    requires
        cache_is_sound(cache),
    ensures
        after_begin(cache, now).entry == cache.entry,
        cache_is_sound(after_begin(cache, now)),
        ({
            let after = after_complete(cache, now, outcome);
            &&& cache_is_sound(after)
            &&& after.entry == cache.entry || (outcome matches OutcomeView::Found(regions)
                && after.entry == Some(
                CacheEntryView { regions: regions, fetched_at: now, ttl: cache.cache_lifetime },
            ))
        }),
        ({
            let after = after_shrink(cache, now);
            &&& cache_is_sound(after)
            &&& after.entry == cache.entry || after.entry is None
        }),
{
}

/// While a discovery is under way no other caller is asked to discover,
/// until its outcome is reported or it is given up.
pub proof fn lemma_one_discovery_at_a_time(cache: CacheView, now: u64, later: u64)
    requires
        plan_at(cache, now) is Discover,
    ensures
        after_begin(cache, now).in_flight,
        !(plan_at(after_begin(cache, now), later) is Discover),
{
}

/// A shrink pass purges only what has been stale for longer than the shrink
/// interval: an entry that is fresh is never purged.
pub proof fn lemma_shrink_keeps_fresh_entries(cache: CacheView, now: u64)
    requires
        state_at(cache, now) == CacheState::Fresh,
    ensures
        after_shrink(cache, now).entry == cache.entry,
{
}

} // verus!
