//! Providers of regions: of a fixed list, or of what the directory service
//! says.

use crate::all_regions_provider::after_begin;
use crate::all_regions_provider::after_complete;
use crate::all_regions_provider::answer_after;
use crate::all_regions_provider::answer_view;
use crate::all_regions_provider::is_accepted;
use crate::all_regions_provider::outcome_view;
use crate::all_regions_provider::plan_at;
use crate::all_regions_provider::AllRegionsProvider;
use crate::all_regions_provider::after_shrink;
use crate::all_regions_provider::stored_view;
use crate::all_regions_provider::ApiCallError;
use crate::all_regions_provider::CacheEntry;
use crate::all_regions_provider::CacheEntryView;
use crate::all_regions_provider::CacheView;
use crate::all_regions_provider::Completion;
use crate::all_regions_provider::OutcomeView;
use crate::all_regions_provider::Plan;
use crate::all_regions_provider::PlanView;
use crate::all_regions_provider::RegionPlan;
use crate::region::Region;
use crate::region::RegionView;
use vstd::prelude::*;

verus! {

/// The values of a list of regions, in order.
pub open spec fn region_views(s: Seq<Region>) -> Seq<RegionView> {
    Seq::new(s.len(), |i: int| s[i]@)
}

/// Copies a list of regions.
pub fn clone_region_list(list: &Vec<Region>) -> (r: Vec<Region>)
    ensures
        region_views(r@) == region_views(list@),
{
    let mut out: Vec<Region> = Vec::new();
    let mut i: usize = 0;
    while i < list.len()
        invariant
            i <= list.len(),
            out.len() == i,
            forall|j: int| 0 <= j < i ==> out[j]@ == list[j]@,
        decreases list.len() - i,
    {
        out.push(list[i].clone());
        i += 1;
    }
    assert(region_views(out@) =~= region_views(list@));
    out
}

/// A provider was asked for with no region to provide.
#[derive(Clone, Copy, Debug, PartialEq, Eq, Structural)]
pub struct EmptyRegionsProvider;

impl EmptyRegionsProvider {
    /// The message of the error.
    pub fn message(&self) -> (r: &'static str)
        ensures
            r@ == "regions is empty"@,
    {
        "regions is empty"
    }
}

/// The region that a provider of `regions` hands out where one is asked for.
pub open spec fn chosen_region(regions: Seq<RegionView>) -> RegionView {
    regions[0]
}

/// A provider of a fixed list of regions, which is never empty.
#[derive(Debug)]
pub struct StaticRegionsProvider {
    regions: Vec<Region>,
}

impl View for StaticRegionsProvider {
    type V = Seq<RegionView>;

    closed spec fn view(&self) -> Seq<RegionView> {
        region_views(self.regions@)
    }
}

impl StaticRegionsProvider {
    #[verifier::type_invariant]
    spec fn inv(self) -> bool {
        self.regions.len() > 0
    }

    /// The provider of the given regions, in their order; no provider where
    /// there is no region.
    pub fn new(regions: Vec<Region>) -> (r: Result<Self, EmptyRegionsProvider>)
        ensures
            match r {
                Ok(provider) => regions.len() > 0 && provider@ == region_views(regions@),
                Err(_) => regions.len() == 0,
            },
    {
        if regions.len() == 0 {
            Err(EmptyRegionsProvider)
        } else {
            Ok(StaticRegionsProvider { regions })
        }
    }

    /// The provider of one region.
    pub fn from_region(region: Region) -> (r: Self)
        ensures
            r@ == seq![region@],
    {
        let mut regions: Vec<Region> = Vec::new();
        regions.push(region);
        assert(region_views(regions@) =~= seq![region@]);
        StaticRegionsProvider { regions }
    }

    /// The first region.
    pub fn get(&self) -> (r: Region)
        ensures
            self@.len() > 0,
            r@ == chosen_region(self@),
    {
        proof {
            use_type_invariant(self);
        }
        self.regions[0].clone()
    }

    /// Every region, in the order in which they were given.
    pub fn get_all(&self) -> (r: Vec<Region>)
        ensures
            r.len() > 0,
            region_views(r@) == self@,
    {
        proof {
            use_type_invariant(self);
        }
        let r = clone_region_list(&self.regions);
        assert(region_views(r@).len() == r.len());
        assert(region_views(self.regions@).len() == self.regions.len());
        r
    }
}

/// The provider of a list that is not empty hands out its first region,
/// whenever and however often it is asked.
pub proof fn lemma_static_provider_chooses_first(regions: Seq<Region>)
    requires
        regions.len() > 0,
    ensures
        chosen_region(region_views(regions)) == regions[0]@,
{
}

/// The mathematical value of a `RegionsProvider`.
pub enum RegionsProviderView {
    Static(Seq<RegionView>),
    All(CacheView),
}

/// What a caller that asks a provider for regions at the time `now` is to
/// do: a fixed list is served as it is.
pub open spec fn provider_plan(provider: RegionsProviderView, now: u64) -> PlanView {
    match provider {
        RegionsProviderView::Static(regions) => PlanView::Serve(regions),
        RegionsProviderView::All(cache) => plan_at(cache, now),
    }
}

/// The provider after a caller was told what to do.
pub open spec fn provider_after_begin(provider: RegionsProviderView, now: u64) -> RegionsProviderView {
    match provider {
        RegionsProviderView::Static(regions) => provider,
        RegionsProviderView::All(cache) => RegionsProviderView::All(after_begin(cache, now)),
    }
}

/// The provider after a discovery has ended: a fixed list stays as it is.
pub open spec fn provider_after_complete(
    provider: RegionsProviderView,
    now: u64,
    outcome: OutcomeView,
) -> RegionsProviderView {
    match provider {
        RegionsProviderView::Static(regions) => provider,
        RegionsProviderView::All(cache) => RegionsProviderView::All(
            after_complete(cache, now, outcome),
        ),
    }
}

/// What the caller gets once a discovery has ended: of a fixed list, the
/// list.
pub open spec fn provider_answer_after(provider: RegionsProviderView, outcome: OutcomeView) -> Result<
    Seq<RegionView>,
    Seq<char>,
> {
    match provider {
        RegionsProviderView::Static(regions) => Ok(regions),
        RegionsProviderView::All(cache) => answer_after(cache, outcome),
    }
}

/// The provider after the discovery under way was given up.
pub open spec fn provider_after_cancel(provider: RegionsProviderView) -> RegionsProviderView {
    match provider {
        RegionsProviderView::Static(_) => provider,
        RegionsProviderView::All(cache) => RegionsProviderView::All(
            CacheView { in_flight: false, ..cache },
        ),
    }
}

/// The provider after it was offered a shrink pass.
pub open spec fn provider_after_shrink(provider: RegionsProviderView, now: u64) -> RegionsProviderView {
    match provider {
        RegionsProviderView::Static(_) => provider,
        RegionsProviderView::All(cache) => RegionsProviderView::All(after_shrink(cache, now)),
    }
}

/// What the provider's cache holds: of a fixed list, nothing.
pub open spec fn provider_entry(provider: RegionsProviderView) -> Option<CacheEntryView> {
    match provider {
        RegionsProviderView::Static(_) => None,
        RegionsProviderView::All(cache) => cache.entry,
    }
}

/// Whether the cache is to be stored once a discovery has ended.
pub open spec fn provider_persists(provider: RegionsProviderView, outcome: OutcomeView) -> bool {
    match provider {
        RegionsProviderView::Static(_) => false,
        RegionsProviderView::All(cache) => is_accepted(outcome) && cache.writes_through,
    }
}

/// A source of regions.
#[derive(Debug)]
pub enum RegionsProvider {
    /// A fixed list of regions.
    Static(StaticRegionsProvider),
    /// Every region that the directory service knows.
    All(AllRegionsProvider),
}

impl View for RegionsProvider {
    type V = RegionsProviderView;

    open spec fn view(&self) -> RegionsProviderView {
        match self {
            RegionsProvider::Static(provider) => RegionsProviderView::Static(provider@),
            RegionsProvider::All(provider) => RegionsProviderView::All(provider@),
        }
    }
}

impl RegionsProvider {
    /// The provider of the given regions, in their order; no provider where
    /// there is no region.
    pub fn new(regions: Vec<Region>) -> (r: Result<Self, EmptyRegionsProvider>)
        ensures
            match r {
                Ok(provider) => regions.len() > 0 && provider@ == RegionsProviderView::Static(
                    region_views(regions@),
                ),
                Err(_) => regions.len() == 0,
            },
    {
        match StaticRegionsProvider::new(regions) {
            Ok(provider) => Ok(RegionsProvider::Static(provider)),
            Err(e) => Err(e),
        }
    }

    /// The provider of one region, which hands out that region.
    pub fn from_region(region: Region) -> (r: Self)
        ensures
            r@ == RegionsProviderView::Static(seq![region@]),
    {
        RegionsProvider::Static(StaticRegionsProvider::from_region(region))
    }

    /// The provider of what the directory service says.
    pub fn from_all_regions_provider(provider: AllRegionsProvider) -> (r: Self)
        ensures
            r == RegionsProvider::All(provider),
    {
        RegionsProvider::All(provider)
    }

    /// Tells a caller that asks for one region at the time `now` what to
    /// do; the region served is the first of the provider's regions.
    pub fn get(&mut self, now: u64) -> (r: RegionPlan)
        ensures
            match provider_plan(old(self)@, now) {
                PlanView::Serve(regions) => r matches RegionPlan::Serve(region) && regions.len() > 0
                    && region@ == chosen_region(regions),
                PlanView::Discover => r is Discover,
                PlanView::Join => r is Join,
            },
            final(self)@ == provider_after_begin(old(self)@, now),
    {
        match self {
            RegionsProvider::Static(provider) => RegionPlan::Serve(provider.get()),
            RegionsProvider::All(provider) => provider.begin_get(now),
        }
    }

    /// Tells a caller that asks for every region at the time `now` what to
    /// do.
    pub fn get_all(&mut self, now: u64) -> (r: Plan)
        ensures
            r@ == provider_plan(old(self)@, now),
            final(self)@ == provider_after_begin(old(self)@, now),
            r matches Plan::Serve(regions) ==> regions.len() > 0,
    {
        match self {
            RegionsProvider::Static(provider) => Plan::Serve(provider.get_all()),
            RegionsProvider::All(provider) => provider.begin_get_all(now),
        }
    }

    /// Takes the outcome of a discovery that ended at the time `now`, and
    /// answers the caller that made it.
    pub fn complete_discovery(&mut self, now: u64, outcome: Result<Vec<Region>, ApiCallError>) -> (r:
        Completion)
        ensures
            final(self)@ == provider_after_complete(old(self)@, now, outcome_view(outcome)),
            answer_view(r.answer) == provider_answer_after(old(self)@, outcome_view(outcome)),
            r.persist == provider_persists(old(self)@, outcome_view(outcome)),
            r.answer matches Ok(regions) ==> regions.len() > 0,
    {
        match self {
            RegionsProvider::Static(provider) => Completion {
                answer: Ok(provider.get_all()),
                persist: false,
            },
            RegionsProvider::All(provider) => provider.complete_discovery(now, outcome),
        }
    }
}

impl RegionsProvider {
    /// Takes note that the discovery under way was given up.
    pub fn cancel_discovery(&mut self)
        ensures
            final(self)@ == provider_after_cancel(old(self)@),
    {
        match self {
            RegionsProvider::Static(_) => {},
            RegionsProvider::All(provider) => provider.cancel_discovery(),
        }
    }

    /// Offers the provider's cache a shrink pass at the time `now`, and says
    /// whether an entry was purged.
    pub fn shrink(&mut self, now: u64) -> (purged: bool)
        ensures
            final(self)@ == provider_after_shrink(old(self)@, now),
            purged == (provider_entry(old(self)@) is Some && provider_entry(final(self)@) is None),
    {
        match self {
            RegionsProvider::Static(_) => false,
            RegionsProvider::All(provider) => provider.shrink(now),
        }
    }

    /// What the provider's cache holds, to be stored.
    pub fn snapshot(&self) -> (r: Option<CacheEntry>)
        ensures
            stored_view(r) == provider_entry(self@),
    {
        match self {
            RegionsProvider::Static(_) => None,
            RegionsProvider::All(provider) => provider.snapshot(),
        }
    }

    /// The provider of what the directory service says, where this is one.
    pub fn all_regions_provider(&self) -> (r: Option<&AllRegionsProvider>)
        ensures
            match self {
                RegionsProvider::Static(_) => r is None,
                RegionsProvider::All(provider) => r == Some(provider),
            },
    {
        match self {
            RegionsProvider::Static(_) => None,
            RegionsProvider::All(provider) => Some(provider),
        }
    }
}

} // verus!
