//! Providers of endpoints: the endpoints of the services that a caller
//! asks for, taken from a region.

use crate::all_regions_provider::outcome_view;
use crate::all_regions_provider::ApiCallError;
use crate::all_regions_provider::PlanView;
use crate::all_regions_provider::RegionPlan;
use crate::endpoint::Endpoint;
use crate::endpoint::EndpointView;
use crate::endpoints::endpoint_views;
use crate::endpoints::extend_endpoint_list;
use crate::endpoints::Endpoints;
use crate::endpoints::EndpointsView;
use crate::region::service_endpoints;
use crate::region::Region;
use crate::region::RegionView;
use crate::regions_provider::chosen_region;
use crate::regions_provider::provider_after_begin;
use crate::regions_provider::provider_after_cancel;
use crate::regions_provider::provider_after_shrink;
use crate::regions_provider::provider_after_complete;
use crate::regions_provider::provider_answer_after;
use crate::regions_provider::provider_persists;
use crate::regions_provider::provider_plan;
use crate::regions_provider::RegionsProvider;
use crate::regions_provider::RegionsProviderView;
use crate::service_name::ServiceName;
use vstd::prelude::*;

verus! {

/// The preferred endpoints of the given services of a region, one service
/// after the other in the order given, each list in its own order.
pub open spec fn merged_preferred(region: RegionView, services: Seq<ServiceName>) -> Seq<
    EndpointView,
>
    decreases services.len(),
{
    if services.len() == 0 {
        Seq::empty()
    } else {
        merged_preferred(region, services.drop_last()) + service_endpoints(
            region,
            services.last(),
        ).preferred
    }
}

/// The alternative endpoints of the given services of a region, one service
/// after the other in the order given, each list in its own order.
pub open spec fn merged_alternative(region: RegionView, services: Seq<ServiceName>) -> Seq<
    EndpointView,
>
    decreases services.len(),
{
    if services.len() == 0 {
        Seq::empty()
    } else {
        merged_alternative(region, services.drop_last()) + service_endpoints(
            region,
            services.last(),
        ).alternative
    }
}

/// The endpoints of the given services of a region.
pub open spec fn merged_endpoints(region: RegionView, services: Seq<ServiceName>) -> EndpointsView {
    EndpointsView {
        preferred: merged_preferred(region, services),
        alternative: merged_alternative(region, services),
    }
}

/// The services that are asked for: none where no list is given.
pub open spec fn services_of(service_names: Option<Vec<ServiceName>>) -> Seq<ServiceName> {
    match service_names {
        Some(names) => names@,
        None => Seq::empty(),
    }
}

/// Collects the endpoints of the given services of a region. Nothing is
/// left out, reordered or deduplicated; with no service the result is
/// empty.
pub fn endpoints_of_region(region: &Region, service_names: &Vec<ServiceName>) -> (r: Endpoints)
    ensures
        r@ == merged_endpoints(region@, service_names@),
{
    let mut preferred: Vec<Endpoint> = Vec::new();
    let mut alternative: Vec<Endpoint> = Vec::new();
    let mut i: usize = 0;
    assert(service_names@.take(0) =~= Seq::<ServiceName>::empty());
    assert(endpoint_views(preferred@) =~= Seq::<EndpointView>::empty());
    assert(endpoint_views(alternative@) =~= Seq::<EndpointView>::empty());
    while i < service_names.len()
        invariant
            i <= service_names.len(),
            endpoint_views(preferred@) == merged_preferred(region@, service_names@.take(i as int)),
            endpoint_views(alternative@) == merged_alternative(
                region@,
                service_names@.take(i as int),
            ),
        decreases service_names.len() - i,
    {
        let of_service = region.endpoints(service_names[i]);
        extend_endpoint_list(&mut preferred, of_service.preferred());
        extend_endpoint_list(&mut alternative, of_service.alternative());
        proof {
            let next = service_names@.take(i + 1);
            assert(next.drop_last() =~= service_names@.take(i as int));
            assert(next.last() == service_names@[i as int]);
        }
        i += 1;
    }
    assert(service_names@.take(i as int) =~= service_names@);
    Endpoints::new(preferred, Some(alternative))
}

/// The mathematical value of an `EndpointsProvider`.
pub enum EndpointsProviderView {
    Endpoints(EndpointsView),
    Regions(RegionsProviderView),
}

/// What a caller that asks for endpoints is to do.
#[derive(Debug)]
pub enum EndpointsPlan {
    /// Take these endpoints; no discovery is called for.
    Serve(Endpoints),
    /// Discover the regions and report the outcome.
    Discover,
    /// A discovery is under way: wait for its outcome.
    Join,
}

/// What the provider hands back once a discovery has ended.
#[derive(Debug)]
pub struct EndpointsCompletion {
    /// The answer to the caller.
    pub answer: Result<Endpoints, ApiCallError>,
    /// Whether the cache of regions is to be stored now.
    pub persist: bool,
}

/// A source of endpoints.
#[derive(Debug)]
pub enum EndpointsProvider {
    /// Fixed endpoints, whatever services are asked for.
    Endpoints(Endpoints),
    /// The endpoints of the region that a provider of regions chooses.
    Regions(RegionsProvider),
}

impl View for EndpointsProvider {
    type V = EndpointsProviderView;

    open spec fn view(&self) -> EndpointsProviderView {
        match self {
            EndpointsProvider::Endpoints(endpoints) => EndpointsProviderView::Endpoints(endpoints@),
            EndpointsProvider::Regions(provider) => EndpointsProviderView::Regions(provider@),
        }
    }
}

/// The provider after a caller was told what to do.
pub open spec fn endpoints_provider_after_begin(
    provider: EndpointsProviderView,
    now: u64,
) -> EndpointsProviderView {
    match provider {
        EndpointsProviderView::Endpoints(_) => provider,
        EndpointsProviderView::Regions(regions) => EndpointsProviderView::Regions(
            provider_after_begin(regions, now),
        ),
    }
}

impl EndpointsProvider {
    /// The provider of the endpoints of the region that `regions_provider`
    /// chooses.
    pub fn new(regions_provider: RegionsProvider) -> (r: Self)
        ensures
            r == EndpointsProvider::Regions(regions_provider),
    {
        EndpointsProvider::Regions(regions_provider)
    }

    /// The provider of fixed endpoints.
    pub fn from_endpoints(endpoints: Endpoints) -> (r: Self)
        ensures
            r == EndpointsProvider::Endpoints(endpoints),
    {
        EndpointsProvider::Endpoints(endpoints)
    }

    /// Tells a caller that asks for the endpoints of the given services at
    /// the time `now` what to do. Fixed endpoints are served as they are.
    /// Of a provider of regions the one region that it chooses is used, and
    /// the endpoints of its services are collected in the order of
    /// `service_names`; no list of services stands for the empty one.
    pub fn get_endpoints(&mut self, service_names: Option<Vec<ServiceName>>, now: u64) -> (r:
        EndpointsPlan)
        ensures
            match old(self)@ {
                EndpointsProviderView::Endpoints(endpoints) => r matches EndpointsPlan::Serve(served)
                    && served@ == endpoints,
                EndpointsProviderView::Regions(provider) => match provider_plan(provider, now) {
                    PlanView::Serve(regions) => r matches EndpointsPlan::Serve(served) && served@
                        == merged_endpoints(chosen_region(regions), services_of(service_names)),
                    PlanView::Discover => r is Discover,
                    PlanView::Join => r is Join,
                },
            },
            final(self)@ == endpoints_provider_after_begin(old(self)@, now),
    {
        let service_names = match service_names {
            Some(names) => names,
            None => Vec::new(),
        };
        match self {
            EndpointsProvider::Endpoints(endpoints) => EndpointsPlan::Serve(endpoints.clone()),
            EndpointsProvider::Regions(provider) => match provider.get(now) {
                RegionPlan::Serve(region) => EndpointsPlan::Serve(
                    endpoints_of_region(&region, &service_names),
                ),
                RegionPlan::Discover => EndpointsPlan::Discover,
                RegionPlan::Join => EndpointsPlan::Join,
            },
        }
    }

    /// Takes the outcome of a discovery that ended at the time `now`, and
    /// answers the caller that made it: with the endpoints of the first
    /// region of the answer of the provider of regions, or with its error.
    pub fn complete_discovery(
        &mut self,
        service_names: Option<Vec<ServiceName>>,
        now: u64,
        outcome: Result<Vec<Region>, ApiCallError>,
    ) -> (r: EndpointsCompletion)
        ensures
            match old(self)@ {
                EndpointsProviderView::Endpoints(endpoints) => {
                    &&& final(self)@ == old(self)@
                    &&& r.answer matches Ok(served) && served@ == endpoints
                    &&& !r.persist
                },
                EndpointsProviderView::Regions(provider) => {
                    &&& final(self)@ == EndpointsProviderView::Regions(
                        provider_after_complete(provider, now, outcome_view(outcome)),
                    )
                    &&& match provider_answer_after(provider, outcome_view(outcome)) {
                        Ok(regions) => r.answer matches Ok(served) && served@ == merged_endpoints(
                            chosen_region(regions),
                            services_of(service_names),
                        ),
                        Err(message) => r.answer matches Err(e) && e@ == message,
                    }
                    &&& r.persist == provider_persists(provider, outcome_view(outcome))
                },
            },
    {
        let service_names = match service_names {
            Some(names) => names,
            None => Vec::new(),
        };
        match self {
            EndpointsProvider::Endpoints(endpoints) => EndpointsCompletion {
                answer: Ok(endpoints.clone()),
                persist: false,
            },
            EndpointsProvider::Regions(provider) => {
                let done = provider.complete_discovery(now, outcome);
                let answer = match done.answer {
                    Ok(regions) => {
                        assert(crate::regions_provider::region_views(regions@)[0] == regions[0]@);
                        Ok(endpoints_of_region(&regions[0], &service_names))
                    },
                    Err(e) => Err(e),
                };
                EndpointsCompletion { answer, persist: done.persist }
            },
        }
    }
}

/// The endpoints of one service alone are exactly the two lists of that
/// service, as the region holds them.
pub proof fn lemma_one_service_is_served_unchanged(region: RegionView, service: ServiceName)
    ensures
        merged_endpoints(region, seq![service]) == service_endpoints(region, service),
{
    let one = seq![service];
    assert(one.drop_last() =~= Seq::<ServiceName>::empty());
    assert(one.last() == service);
    assert(merged_preferred(region, one.drop_last()) =~= Seq::<EndpointView>::empty());
    assert(merged_alternative(region, one.drop_last()) =~= Seq::<EndpointView>::empty());
    assert(merged_preferred(region, one) =~= service_endpoints(region, service).preferred);
    assert(merged_alternative(region, one) =~= service_endpoints(region, service).alternative);
}

/// The endpoints of two runs of services, one after the other, are the
/// endpoints of the first run followed by those of the second.
pub proof fn lemma_merge_follows_the_order_of_services(
    region: RegionView,
    first: Seq<ServiceName>,
    second: Seq<ServiceName>,
)
    ensures
        merged_preferred(region, first + second) == merged_preferred(region, first)
            + merged_preferred(region, second),
        merged_alternative(region, first + second) == merged_alternative(region, first)
            + merged_alternative(region, second),
    decreases second.len(),
{
    if second.len() == 0 {
        assert(first + second =~= first);
        assert(merged_preferred(region, first) + merged_preferred(region, second)
            =~= merged_preferred(region, first));
        assert(merged_alternative(region, first) + merged_alternative(region, second)
            =~= merged_alternative(region, first));
    } else {
        let both = first + second;
        assert(both.drop_last() =~= first + second.drop_last());
        assert(both.last() == second.last());
        lemma_merge_follows_the_order_of_services(region, first, second.drop_last());
        assert(merged_preferred(region, both) =~= merged_preferred(region, first)
            + merged_preferred(region, second));
        assert(merged_alternative(region, both) =~= merged_alternative(region, first)
            + merged_alternative(region, second));
    }
}

impl EndpointsProvider {
    /// Takes note that the discovery under way was given up.
    pub fn cancel_discovery(&mut self)
        ensures
            final(self)@ == match old(self)@ {
                EndpointsProviderView::Endpoints(_) => old(self)@,
                EndpointsProviderView::Regions(provider) => EndpointsProviderView::Regions(
                    provider_after_cancel(provider),
                ),
            },
    {
        match self {
            EndpointsProvider::Endpoints(_) => {},
            EndpointsProvider::Regions(provider) => provider.cancel_discovery(),
        }
    }

    /// Offers the cache of regions a shrink pass at the time `now`, and
    /// says whether an entry was purged.
    pub fn shrink(&mut self, now: u64) -> (purged: bool)
        ensures
            final(self)@ == match old(self)@ {
                EndpointsProviderView::Endpoints(_) => old(self)@,
                EndpointsProviderView::Regions(provider) => EndpointsProviderView::Regions(
                    provider_after_shrink(provider, now),
                ),
            },
    {
        match self {
            EndpointsProvider::Endpoints(_) => false,
            EndpointsProvider::Regions(provider) => provider.shrink(now),
        }
    }

    /// The provider of regions behind this provider, where there is one.
    pub fn regions_provider(&self) -> (r: Option<&RegionsProvider>)
        ensures
            match self {
                EndpointsProvider::Endpoints(_) => r is None,
                EndpointsProvider::Regions(provider) => r == Some(provider),
            },
    {
        match self {
            EndpointsProvider::Endpoints(_) => None,
            EndpointsProvider::Regions(provider) => Some(provider),
        }
    }
}

} // verus!
