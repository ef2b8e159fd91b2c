//! Lists of endpoints: the preferred ones, tried first and in order, and the
//! alternative ones to fall back on.

use crate::endpoint::parses_to_endpoint;
use crate::endpoint::rejected_as_endpoint;
use crate::endpoint::Endpoint;
use crate::endpoint::EndpointParseError;
use crate::endpoint::EndpointView;
use crate::text::host_with_port;
use vstd::prelude::*;
use vstd::std_specs::cmp::PartialEqSpec;

verus! {

/// The values of a list of endpoints, in order.
pub open spec fn endpoint_views(s: Seq<Endpoint>) -> Seq<EndpointView> {
    Seq::new(s.len(), |i: int| s[i]@)
}

/// The mathematical value of an `Endpoints`.
pub struct EndpointsView {
    pub preferred: Seq<EndpointView>,
    pub alternative: Seq<EndpointView>,
}

/// Copies a list of endpoints.
pub fn clone_endpoint_list(list: &Vec<Endpoint>) -> (r: Vec<Endpoint>)
    ensures
        endpoint_views(r@) == endpoint_views(list@),
{
    let mut out: Vec<Endpoint> = Vec::new();
    let mut i: usize = 0;
    while i < list.len()
        invariant
            i <= list.len(),
            out.len() == i,
            forall|j: int| 0 <= j < i ==> out[j]@ == list[j]@,
        decreases list.len() - i,
    {
        out.push(list[i].clone());
        i += 1;
    }
    assert(endpoint_views(out@) =~= endpoint_views(list@));
    out
}

/// Appends copies of the endpoints of `more` to `list`.
pub fn extend_endpoint_list(list: &mut Vec<Endpoint>, more: &Vec<Endpoint>)
    ensures
        endpoint_views(final(list)@) == endpoint_views(old(list)@) + endpoint_views(more@),
{
    let ghost before = list@;
    let mut i: usize = 0;
    while i < more.len()
        invariant
            i <= more.len(),
            list.len() == before.len() + i,
            forall|j: int| 0 <= j < before.len() ==> list[j]@ == before[j]@,
            forall|j: int| 0 <= j < i ==> list[before.len() + j]@ == more[j]@,
        decreases more.len() - i,
    {
        list.push(more[i].clone());
        i += 1;
    }
    assert(endpoint_views(list@) =~= endpoint_views(before) + endpoint_views(more@));
}

/// Whether two lists hold equal endpoints in the same order.
pub fn endpoint_lists_equal(a: &Vec<Endpoint>, b: &Vec<Endpoint>) -> (r: bool)
    ensures
        r == (endpoint_views(a@) == endpoint_views(b@)),
{
    if a.len() != b.len() {
        assert(endpoint_views(a@).len() != endpoint_views(b@).len());
        return false;
    }
    let mut i: usize = 0;
    while i < a.len()
        invariant
            i <= a.len(),
            a.len() == b.len(),
            forall|j: int| 0 <= j < i ==> a[j]@ == b[j]@,
        decreases a.len() - i,
    {
        if !(a[i] == b[i]) {
            assert(endpoint_views(a@)[i as int] != endpoint_views(b@)[i as int]);
            return false;
        }
        i += 1;
    }
    assert(endpoint_views(a@) =~= endpoint_views(b@));
    true
}

/// The endpoints of one service.
#[derive(Debug)]
pub struct Endpoints {
    preferred: Vec<Endpoint>,
    alternative: Vec<Endpoint>,
}

impl View for Endpoints {
    type V = EndpointsView;

    closed spec fn view(&self) -> EndpointsView {
        EndpointsView {
            preferred: endpoint_views(self.preferred@),
            alternative: endpoint_views(self.alternative@),
        }
    }
}

impl Endpoints {
    /// The endpoints with the given preferred list and, where one is given,
    /// the given alternative list; nothing is reordered or left out.
    pub fn new(preferred_endpoints: Vec<Endpoint>, alternative_endpoints: Option<Vec<Endpoint>>) -> (r:
        Self)
        ensures
            r@.preferred == endpoint_views(preferred_endpoints@),
            r@.alternative == match alternative_endpoints {
                Some(list) => endpoint_views(list@),
                None => Seq::<EndpointView>::empty(),
            },
    {
        let alternative = match alternative_endpoints {
            Some(list) => list,
            None => Vec::new(),
        };
        assert(endpoint_views(Seq::<Endpoint>::empty()) =~= Seq::<EndpointView>::empty());
        Endpoints { preferred: preferred_endpoints, alternative }
    }

    /// No endpoints at all.
    pub fn empty() -> (r: Self)
        ensures
            r@.preferred == Seq::<EndpointView>::empty(),
            r@.alternative == Seq::<EndpointView>::empty(),
    {
        Self::new(Vec::new(), None)
    }

    /// The preferred endpoints, in order.
    pub fn get_preferred(&self) -> (r: Vec<Endpoint>)
        ensures
            endpoint_views(r@) == self@.preferred,
    {
        clone_endpoint_list(&self.preferred)
    }

    /// The alternative endpoints, in order.
    pub fn get_alternative(&self) -> (r: Vec<Endpoint>)
        ensures
            endpoint_views(r@) == self@.alternative,
    {
        clone_endpoint_list(&self.alternative)
    }

    /// The preferred endpoints, in order.
    pub fn preferred(&self) -> (r: &Vec<Endpoint>)
        ensures
            endpoint_views(r@) == self@.preferred,
    {
        &self.preferred
    }

    /// The alternative endpoints, in order.
    pub fn alternative(&self) -> (r: &Vec<Endpoint>)
        ensures
            endpoint_views(r@) == self@.alternative,
    {
        &self.alternative
    }

    /// Whether there is no endpoint in either list.
    pub fn is_empty(&self) -> (r: bool)
        ensures
            r == (self@.preferred.len() == 0 && self@.alternative.len() == 0),
    {
        self.preferred.len() == 0 && self.alternative.len() == 0
    }
}

impl Clone for Endpoints {
    fn clone(&self) -> (r: Self)
        ensures
            r@ == self@,
    {
        Endpoints {
            preferred: clone_endpoint_list(&self.preferred),
            alternative: clone_endpoint_list(&self.alternative),
        }
    }
}

impl PartialEq for Endpoints {
    fn eq(&self, other: &Self) -> (r: bool) {
        endpoint_lists_equal(&self.preferred, &other.preferred) && endpoint_lists_equal(
            &self.alternative,
            &other.alternative,
        )
    }
}

impl vstd::std_specs::cmp::PartialEqSpecImpl for Endpoints {
    open spec fn obeys_eq_spec() -> bool {
        true
    }

    open spec fn eq_spec(&self, other: &Self) -> bool {
        self@ == other@
    }
}

/// Equality of endpoints is reflexive and symmetric.
pub proof fn lemma_endpoints_eq_is_reflexive_and_symmetric(a: Endpoints, b: Endpoints)
    ensures
        a.eq_spec(&a),
        a.eq_spec(&b) == b.eq_spec(&a),
{
}

/// Equality of endpoints tells the two lists apart: the value with the
/// lists exchanged is equal only where both lists are the same.
pub proof fn lemma_endpoints_eq_tells_lists_apart(a: Endpoints, swapped: Endpoints)
    requires
        swapped@.preferred == a@.alternative,
        swapped@.alternative == a@.preferred,
    ensures
        a.eq_spec(&swapped) == (a@.preferred == a@.alternative),
{
}

/// Equality of endpoints is sensitive to the order within a list: two values
/// that differ at one position of the preferred list are unequal.
pub proof fn lemma_endpoints_eq_is_sensitive_to_order(a: Endpoints, b: Endpoints, i: int)
    requires
        0 <= i < a@.preferred.len(),
        i < b@.preferred.len(),
        a@.preferred[i] != b@.preferred[i],
    ensures
        !a.eq_spec(&b),
{
}

/// What a caller may supply for one endpoint: an endpoint, the text of one,
/// or a host and a port.
#[derive(Debug)]
pub enum EndpointSource {
    Endpoint(Endpoint),
    Text(String),
    HostWithPort(String, u16),
}

/// The source stands for the endpoint `v`.
pub open spec fn source_yields(source: EndpointSource, v: EndpointView) -> bool {
    match source {
        EndpointSource::Endpoint(e) => v == e@,
        EndpointSource::Text(t) => parses_to_endpoint(t@, v),
        EndpointSource::HostWithPort(h, p) => parses_to_endpoint(host_with_port(h@, p), v),
    }
}

/// The source is rejected with the error `e`.
pub open spec fn source_rejected(source: EndpointSource, e: EndpointParseError) -> bool {
    match source {
        EndpointSource::Endpoint(_) => false,
        EndpointSource::Text(t) => rejected_as_endpoint(t@, e),
        EndpointSource::HostWithPort(h, p) => rejected_as_endpoint(host_with_port(h@, p), e),
    }
}

/// The endpoint that one source stands for.
pub fn extract_endpoint(source: &EndpointSource) -> (r: Result<Endpoint, EndpointParseError>)
    ensures
        match r {
            Ok(v) => source_yields(*source, v@),
            Err(e) => source_rejected(*source, e),
        },
{
    match source {
        EndpointSource::Endpoint(e) => Ok(e.clone()),
        EndpointSource::Text(t) => Endpoint::parse(t.as_str()),
        EndpointSource::HostWithPort(h, p) => Endpoint::new(h.clone(), Some(*p)),
    }
}

/// The source stands for some endpoint.
pub open spec fn source_accepted(source: EndpointSource) -> bool {
    exists|v: EndpointView| source_yields(source, v)
}

/// The source at `i` is rejected with `e`, and every source before it
/// stands for an endpoint.
pub open spec fn first_rejected(sources: Seq<EndpointSource>, i: int, e: EndpointParseError) -> bool {
    &&& 0 <= i < sources.len()
    &&& source_rejected(sources[i], e)
    &&& forall|j: int| 0 <= j < i ==> source_accepted(#[trigger] sources[j])
}

/// The endpoints that the sources stand for, in order. The first source
/// that is rejected ends the work with its error.
pub fn extract_endpoints(sources: &Vec<EndpointSource>) -> (r: Result<
    Vec<Endpoint>,
    EndpointParseError,
>)
    ensures
        match r {
            Ok(list) => {
                &&& list.len() == sources.len()
                &&& forall|i: int|
                    0 <= i < sources.len() ==> source_yields(sources[i], #[trigger] list[i]@)
            },
            Err(e) => exists|i: int| first_rejected(sources@, i, e),
        },
{
    let mut out: Vec<Endpoint> = Vec::new();
    let mut i: usize = 0;
    while i < sources.len()
        invariant
            i <= sources.len(),
            out.len() == i,
            forall|j: int| 0 <= j < i ==> source_yields(sources[j], #[trigger] out[j]@),
        decreases sources.len() - i,
    {
        match extract_endpoint(&sources[i]) {
            Ok(endpoint) => {
                out.push(endpoint);
            },
            Err(e) => {
                proof {
                    let at = i as int;
                    assert forall|j: int| 0 <= j < at implies source_accepted(
                        #[trigger] sources@[j],
                    ) by {
                        assert(source_yields(sources@[j], out[j]@));
                    }
                    assert(first_rejected(sources@, at, e));
                }
                return Err(e);
            },
        }
        i += 1;
    }
    Ok(out)
}

/// The sources of a list that may be left out: none where it is.
pub open spec fn sources_of(list: Option<Vec<EndpointSource>>) -> Seq<EndpointSource> {
    match list {
        Some(v) => v@,
        None => Seq::empty(),
    }
}

/// The sources stand, one for one and in order, for the endpoints `views`.
pub open spec fn yields_all(sources: Seq<EndpointSource>, views: Seq<EndpointView>) -> bool {
    &&& views.len() == sources.len()
    &&& forall|i: int| 0 <= i < sources.len() ==> source_yields(sources[i], #[trigger] views[i])
}

/// Every source stands for some endpoint.
pub open spec fn all_accepted(sources: Seq<EndpointSource>) -> bool {
    forall|i: int| 0 <= i < sources.len() ==> source_accepted(#[trigger] sources[i])
}

/// In the list `k` the source at `i` is rejected with `e`, and every source
/// before it, in that list and in the lists before it, stands for an endpoint.
pub open spec fn first_rejected_in(
    lists: Seq<Seq<EndpointSource>>,
    k: int,
    i: int,
    e: EndpointParseError,
) -> bool {
    &&& 0 <= k < lists.len()
    &&& first_rejected(lists[k], i, e)
    &&& forall|m: int| 0 <= m < k ==> all_accepted(#[trigger] lists[m])
}

/// The endpoints of a list of sources that may be left out.
pub fn extract_endpoint_list(list: &Option<Vec<EndpointSource>>) -> (r: Result<
    Vec<Endpoint>,
    EndpointParseError,
>)
    ensures
        match r {
            Ok(v) => yields_all(sources_of(*list), endpoint_views(v@)),
            Err(e) => exists|i: int| first_rejected(sources_of(*list), i, e),
        },
{
    match list {
        Some(sources) => {
            match extract_endpoints(sources) {
                Ok(v) => {
                    assert forall|i: int| 0 <= i < sources.len() implies source_yields(
                        sources[i],
                        #[trigger] endpoint_views(v@)[i],
                    ) by {
                        assert(source_yields(sources[i], v[i]@));
                    }
                    Ok(v)
                },
                Err(e) => {
                    proof {
                        let i = choose|i: int| first_rejected(sources@, i, e);
                        assert(first_rejected(sources_of(*list), i, e));
                    }
                    Err(e)
                },
            }
        },
        None => {
            assert(endpoint_views(Seq::<Endpoint>::empty()) =~= Seq::<EndpointView>::empty());
            Ok(Vec::new())
        },
    }
}

/// Sources that stand for endpoints are all accepted.
pub proof fn lemma_yields_all_accepted(sources: Seq<EndpointSource>, views: Seq<EndpointView>)
    requires
        yields_all(sources, views),
    ensures
        all_accepted(sources),
{
    assert forall|i: int| 0 <= i < sources.len() implies source_accepted(
        #[trigger] sources[i],
    ) by {
        assert(source_yields(sources[i], views[i]));
    }
}

impl Endpoints {
    /// The endpoints that the sources stand for. The preferred list is
    /// checked first, and the first source that is rejected ends the work
    /// with its error.
    pub fn from_sources(
        preferred_endpoints: Vec<EndpointSource>,
        alternative_endpoints: Option<Vec<EndpointSource>>,
    ) -> (r: Result<Self, EndpointParseError>)
        ensures
            match r {
                Ok(endpoints) => {
                    &&& yields_all(preferred_endpoints@, endpoints@.preferred)
                    &&& yields_all(sources_of(alternative_endpoints), endpoints@.alternative)
                },
                Err(e) => exists|k: int, i: int|
                    first_rejected_in(
                        seq![preferred_endpoints@, sources_of(alternative_endpoints)],
                        k,
                        i,
                        e,
                    ),
            },
    {
        let ghost lists = seq![preferred_endpoints@, sources_of(alternative_endpoints)];
        let preferred = match extract_endpoints(&preferred_endpoints) {
            Ok(list) => list,
            Err(e) => {
                proof {
                    let i = choose|i: int| first_rejected(preferred_endpoints@, i, e);
                    assert(lists[0] == preferred_endpoints@);
                    assert(first_rejected_in(lists, 0, i, e));
                }
                return Err(e);
            },
        };
        proof {
            assert forall|i: int| 0 <= i < preferred_endpoints.len() implies source_yields(
                preferred_endpoints[i],
                #[trigger] endpoint_views(preferred@)[i],
            ) by {
                assert(source_yields(preferred_endpoints[i], preferred[i]@));
            }
            lemma_yields_all_accepted(preferred_endpoints@, endpoint_views(preferred@));
            assert(lists[0] == preferred_endpoints@);
        }
        let alternative = match extract_endpoint_list(&alternative_endpoints) {
            Ok(list) => list,
            Err(e) => {
                proof {
                    let i = choose|i: int| first_rejected(sources_of(alternative_endpoints), i, e);
                    assert(lists[1] == sources_of(alternative_endpoints));
                    assert(first_rejected_in(lists, 1, i, e));
                }
                return Err(e);
            },
        };
        Ok(Endpoints::new(preferred, Some(alternative)))
    }
}

} // verus!
