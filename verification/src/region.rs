//! Regions: a named place of the storage service with the endpoints of its
//! seven services.

use crate::endpoint::Endpoint;
use crate::endpoint::EndpointParseError;
use crate::endpoints::endpoint_views;
use crate::endpoints::extract_endpoint_list;
use crate::endpoints::first_rejected;
use crate::endpoints::first_rejected_in;
use crate::endpoints::lemma_yields_all_accepted;
use crate::endpoints::sources_of;
use crate::endpoints::yields_all;
use crate::endpoints::EndpointSource;
use crate::endpoints::Endpoints;
use crate::endpoints::EndpointsView;
use crate::service_name::ServiceName;
use vstd::prelude::*;

verus! {

/// The mathematical value of a `Region`.
pub struct RegionView {
    pub region_id: Seq<char>,
    pub s3_region_id: Seq<char>,
    pub up: EndpointsView,
    pub io: EndpointsView,
    pub uc: EndpointsView,
    pub rs: EndpointsView,
    pub rsf: EndpointsView,
    pub api: EndpointsView,
    pub s3: EndpointsView,
}

/// The endpoints of one service of a region.
pub open spec fn service_endpoints(region: RegionView, service: ServiceName) -> EndpointsView {
    match service {
        ServiceName::Up => region.up,
        ServiceName::Io => region.io,
        ServiceName::Uc => region.uc,
        ServiceName::Rs => region.rs,
        ServiceName::Rsf => region.rsf,
        ServiceName::Api => region.api,
        ServiceName::S3 => region.s3,
    }
}

/// A region of the storage service.
#[derive(Debug)]
pub struct Region {
    region_id: String,
    s3_region_id: String,
    up: Endpoints,
    io: Endpoints,
    uc: Endpoints,
    rs: Endpoints,
    rsf: Endpoints,
    api: Endpoints,
    s3: Endpoints,
}

impl View for Region {
    type V = RegionView;

    closed spec fn view(&self) -> RegionView {
        RegionView {
            region_id: self.region_id@,
            s3_region_id: self.s3_region_id@,
            up: self.up@,
            io: self.io@,
            uc: self.uc@,
            rs: self.rs@,
            rsf: self.rsf@,
            api: self.api@,
            s3: self.s3@,
        }
    }
}

/// The fourteen lists of sources of a region, in the order in which they
/// are checked.
pub open spec fn region_sources(
    up_preferred_endpoints: Option<Vec<EndpointSource>>,
    up_alternative_endpoints: Option<Vec<EndpointSource>>,
    io_preferred_endpoints: Option<Vec<EndpointSource>>,
    io_alternative_endpoints: Option<Vec<EndpointSource>>,
    uc_preferred_endpoints: Option<Vec<EndpointSource>>,
    uc_alternative_endpoints: Option<Vec<EndpointSource>>,
    rs_preferred_endpoints: Option<Vec<EndpointSource>>,
    rs_alternative_endpoints: Option<Vec<EndpointSource>>,
    rsf_preferred_endpoints: Option<Vec<EndpointSource>>,
    rsf_alternative_endpoints: Option<Vec<EndpointSource>>,
    s3_preferred_endpoints: Option<Vec<EndpointSource>>,
    s3_alternative_endpoints: Option<Vec<EndpointSource>>,
    api_preferred_endpoints: Option<Vec<EndpointSource>>,
    api_alternative_endpoints: Option<Vec<EndpointSource>>,
) -> Seq<Seq<EndpointSource>> {
    seq![
        sources_of(up_preferred_endpoints),
        sources_of(up_alternative_endpoints),
        sources_of(io_preferred_endpoints),
        sources_of(io_alternative_endpoints),
        sources_of(uc_preferred_endpoints),
        sources_of(uc_alternative_endpoints),
        sources_of(rs_preferred_endpoints),
        sources_of(rs_alternative_endpoints),
        sources_of(rsf_preferred_endpoints),
        sources_of(rsf_alternative_endpoints),
        sources_of(s3_preferred_endpoints),
        sources_of(s3_alternative_endpoints),
        sources_of(api_preferred_endpoints),
        sources_of(api_alternative_endpoints),
    ]
}

impl Region {
    /// Builds a region. The S3 region ID is the region ID where none is
    /// given; a list that is left out is empty. The lists are checked in the
    /// order of the parameters, and the first source that is rejected ends
    /// the work with its error.
    pub fn new(
        region_id: String,
        s3_region_id: Option<String>,
        up_preferred_endpoints: Option<Vec<EndpointSource>>,
        up_alternative_endpoints: Option<Vec<EndpointSource>>,
        io_preferred_endpoints: Option<Vec<EndpointSource>>,
        io_alternative_endpoints: Option<Vec<EndpointSource>>,
        uc_preferred_endpoints: Option<Vec<EndpointSource>>,
        uc_alternative_endpoints: Option<Vec<EndpointSource>>,
        rs_preferred_endpoints: Option<Vec<EndpointSource>>,
        rs_alternative_endpoints: Option<Vec<EndpointSource>>,
        rsf_preferred_endpoints: Option<Vec<EndpointSource>>,
        rsf_alternative_endpoints: Option<Vec<EndpointSource>>,
        s3_preferred_endpoints: Option<Vec<EndpointSource>>,
        s3_alternative_endpoints: Option<Vec<EndpointSource>>,
        api_preferred_endpoints: Option<Vec<EndpointSource>>,
        api_alternative_endpoints: Option<Vec<EndpointSource>>,
    ) -> (r: Result<Self, EndpointParseError>)
        ensures
            match r {
                Ok(region) => {
                    &&& region@.region_id == region_id@
                    &&& region@.s3_region_id == match s3_region_id {
                        Some(id) => id@,
                        None => region_id@,
                    }
                    &&& yields_all(sources_of(up_preferred_endpoints), region@.up.preferred)
                    &&& yields_all(sources_of(up_alternative_endpoints), region@.up.alternative)
                    &&& yields_all(sources_of(io_preferred_endpoints), region@.io.preferred)
                    &&& yields_all(sources_of(io_alternative_endpoints), region@.io.alternative)
                    &&& yields_all(sources_of(uc_preferred_endpoints), region@.uc.preferred)
                    &&& yields_all(sources_of(uc_alternative_endpoints), region@.uc.alternative)
                    &&& yields_all(sources_of(rs_preferred_endpoints), region@.rs.preferred)
                    &&& yields_all(sources_of(rs_alternative_endpoints), region@.rs.alternative)
                    &&& yields_all(sources_of(rsf_preferred_endpoints), region@.rsf.preferred)
                    &&& yields_all(sources_of(rsf_alternative_endpoints), region@.rsf.alternative)
                    &&& yields_all(sources_of(s3_preferred_endpoints), region@.s3.preferred)
                    &&& yields_all(sources_of(s3_alternative_endpoints), region@.s3.alternative)
                    &&& yields_all(sources_of(api_preferred_endpoints), region@.api.preferred)
                    &&& yields_all(sources_of(api_alternative_endpoints), region@.api.alternative)
                },
                Err(e) => exists|k: int, i: int|
                    first_rejected_in(
                        region_sources(
                            up_preferred_endpoints,
                            up_alternative_endpoints,
                            io_preferred_endpoints,
                            io_alternative_endpoints,
                            uc_preferred_endpoints,
                            uc_alternative_endpoints,
                            rs_preferred_endpoints,
                            rs_alternative_endpoints,
                            rsf_preferred_endpoints,
                            rsf_alternative_endpoints,
                            s3_preferred_endpoints,
                            s3_alternative_endpoints,
                            api_preferred_endpoints,
                            api_alternative_endpoints,
                        ),
                        k,
                        i,
                        e,
                    ),
            },
    {
        let ghost lists = region_sources(
            up_preferred_endpoints,
            up_alternative_endpoints,
            io_preferred_endpoints,
            io_alternative_endpoints,
            uc_preferred_endpoints,
            uc_alternative_endpoints,
            rs_preferred_endpoints,
            rs_alternative_endpoints,
            rsf_preferred_endpoints,
            rsf_alternative_endpoints,
            s3_preferred_endpoints,
            s3_alternative_endpoints,
            api_preferred_endpoints,
            api_alternative_endpoints,
        );
        let up_preferred = match extract_endpoint_list(&up_preferred_endpoints) {
            Ok(list) => list,
            Err(e) => {
                proof {
                    let i = choose|i: int| first_rejected(sources_of(up_preferred_endpoints), i, e);
                    assert(lists[0] == sources_of(up_preferred_endpoints));
                    assert(first_rejected_in(lists, 0, i, e));
                }
                return Err(e);
            },
        };
        proof {
            lemma_yields_all_accepted(sources_of(up_preferred_endpoints), endpoint_views(up_preferred@));
            assert(lists[0] == sources_of(up_preferred_endpoints));
        }
        let up_alternative = match extract_endpoint_list(&up_alternative_endpoints) {
            Ok(list) => list,
            Err(e) => {
                proof {
                    let i = choose|i: int| first_rejected(sources_of(up_alternative_endpoints), i, e);
                    assert(lists[1] == sources_of(up_alternative_endpoints));
                    assert(first_rejected_in(lists, 1, i, e));
                }
                return Err(e);
            },
        };
        proof {
            lemma_yields_all_accepted(sources_of(up_alternative_endpoints), endpoint_views(up_alternative@));
            assert(lists[1] == sources_of(up_alternative_endpoints));
        }
        let io_preferred = match extract_endpoint_list(&io_preferred_endpoints) {
            Ok(list) => list,
            Err(e) => {
                proof {
                    let i = choose|i: int| first_rejected(sources_of(io_preferred_endpoints), i, e);
                    assert(lists[2] == sources_of(io_preferred_endpoints));
                    assert(first_rejected_in(lists, 2, i, e));
                }
                return Err(e);
            },
        };
        proof {
            lemma_yields_all_accepted(sources_of(io_preferred_endpoints), endpoint_views(io_preferred@));
            assert(lists[2] == sources_of(io_preferred_endpoints));
        }
        let io_alternative = match extract_endpoint_list(&io_alternative_endpoints) {
            Ok(list) => list,
            Err(e) => {
                proof {
                    let i = choose|i: int| first_rejected(sources_of(io_alternative_endpoints), i, e);
                    assert(lists[3] == sources_of(io_alternative_endpoints));
                    assert(first_rejected_in(lists, 3, i, e));
                }
                return Err(e);
            },
        };
        proof {
            lemma_yields_all_accepted(sources_of(io_alternative_endpoints), endpoint_views(io_alternative@));
            assert(lists[3] == sources_of(io_alternative_endpoints));
        }
        let uc_preferred = match extract_endpoint_list(&uc_preferred_endpoints) {
            Ok(list) => list,
            Err(e) => {
                proof {
                    let i = choose|i: int| first_rejected(sources_of(uc_preferred_endpoints), i, e);
                    assert(lists[4] == sources_of(uc_preferred_endpoints));
                    assert(first_rejected_in(lists, 4, i, e));
                }
                return Err(e);
            },
        };
        proof {
            lemma_yields_all_accepted(sources_of(uc_preferred_endpoints), endpoint_views(uc_preferred@));
            assert(lists[4] == sources_of(uc_preferred_endpoints));
        }
        let uc_alternative = match extract_endpoint_list(&uc_alternative_endpoints) {
            Ok(list) => list,
            Err(e) => {
                proof {
                    let i = choose|i: int| first_rejected(sources_of(uc_alternative_endpoints), i, e);
                    assert(lists[5] == sources_of(uc_alternative_endpoints));
                    assert(first_rejected_in(lists, 5, i, e));
                }
                return Err(e);
            },
        };
        proof {
            lemma_yields_all_accepted(sources_of(uc_alternative_endpoints), endpoint_views(uc_alternative@));
            assert(lists[5] == sources_of(uc_alternative_endpoints));
        }
        let rs_preferred = match extract_endpoint_list(&rs_preferred_endpoints) {
            Ok(list) => list,
            Err(e) => {
                proof {
                    let i = choose|i: int| first_rejected(sources_of(rs_preferred_endpoints), i, e);
                    assert(lists[6] == sources_of(rs_preferred_endpoints));
                    assert(first_rejected_in(lists, 6, i, e));
                }
                return Err(e);
            },
        };
        proof {
            lemma_yields_all_accepted(sources_of(rs_preferred_endpoints), endpoint_views(rs_preferred@));
            assert(lists[6] == sources_of(rs_preferred_endpoints));
        }
        let rs_alternative = match extract_endpoint_list(&rs_alternative_endpoints) {
            Ok(list) => list,
            Err(e) => {
                proof {
                    let i = choose|i: int| first_rejected(sources_of(rs_alternative_endpoints), i, e);
                    assert(lists[7] == sources_of(rs_alternative_endpoints));
                    assert(first_rejected_in(lists, 7, i, e));
                }
                return Err(e);
            },
        };
        proof {
            lemma_yields_all_accepted(sources_of(rs_alternative_endpoints), endpoint_views(rs_alternative@));
            assert(lists[7] == sources_of(rs_alternative_endpoints));
        }
        let rsf_preferred = match extract_endpoint_list(&rsf_preferred_endpoints) {
            Ok(list) => list,
            Err(e) => {
                proof {
                    let i = choose|i: int| first_rejected(sources_of(rsf_preferred_endpoints), i, e);
                    assert(lists[8] == sources_of(rsf_preferred_endpoints));
                    assert(first_rejected_in(lists, 8, i, e));
                }
                return Err(e);
            },
        };
        proof {
            lemma_yields_all_accepted(sources_of(rsf_preferred_endpoints), endpoint_views(rsf_preferred@));
            assert(lists[8] == sources_of(rsf_preferred_endpoints));
        }
        let rsf_alternative = match extract_endpoint_list(&rsf_alternative_endpoints) {
            Ok(list) => list,
            Err(e) => {
                proof {
                    let i = choose|i: int| first_rejected(sources_of(rsf_alternative_endpoints), i, e);
                    assert(lists[9] == sources_of(rsf_alternative_endpoints));
                    assert(first_rejected_in(lists, 9, i, e));
                }
                return Err(e);
            },
        };
        proof {
            lemma_yields_all_accepted(sources_of(rsf_alternative_endpoints), endpoint_views(rsf_alternative@));
            assert(lists[9] == sources_of(rsf_alternative_endpoints));
        }
        let s3_preferred = match extract_endpoint_list(&s3_preferred_endpoints) {
            Ok(list) => list,
            Err(e) => {
                proof {
                    let i = choose|i: int| first_rejected(sources_of(s3_preferred_endpoints), i, e);
                    assert(lists[10] == sources_of(s3_preferred_endpoints));
                    assert(first_rejected_in(lists, 10, i, e));
                }
                return Err(e);
            },
        };
        proof {
            lemma_yields_all_accepted(sources_of(s3_preferred_endpoints), endpoint_views(s3_preferred@));
            assert(lists[10] == sources_of(s3_preferred_endpoints));
        }
        let s3_alternative = match extract_endpoint_list(&s3_alternative_endpoints) {
            Ok(list) => list,
            Err(e) => {
                proof {
                    let i = choose|i: int| first_rejected(sources_of(s3_alternative_endpoints), i, e);
                    assert(lists[11] == sources_of(s3_alternative_endpoints));
                    assert(first_rejected_in(lists, 11, i, e));
                }
                return Err(e);
            },
        };
        proof {
            lemma_yields_all_accepted(sources_of(s3_alternative_endpoints), endpoint_views(s3_alternative@));
            assert(lists[11] == sources_of(s3_alternative_endpoints));
        }
        let api_preferred = match extract_endpoint_list(&api_preferred_endpoints) {
            Ok(list) => list,
            Err(e) => {
                proof {
                    let i = choose|i: int| first_rejected(sources_of(api_preferred_endpoints), i, e);
                    assert(lists[12] == sources_of(api_preferred_endpoints));
                    assert(first_rejected_in(lists, 12, i, e));
                }
                return Err(e);
            },
        };
        proof {
            lemma_yields_all_accepted(sources_of(api_preferred_endpoints), endpoint_views(api_preferred@));
            assert(lists[12] == sources_of(api_preferred_endpoints));
        }
        let api_alternative = match extract_endpoint_list(&api_alternative_endpoints) {
            Ok(list) => list,
            Err(e) => {
                proof {
                    let i = choose|i: int| first_rejected(sources_of(api_alternative_endpoints), i, e);
                    assert(lists[13] == sources_of(api_alternative_endpoints));
                    assert(first_rejected_in(lists, 13, i, e));
                }
                return Err(e);
            },
        };
        proof {
            lemma_yields_all_accepted(sources_of(api_alternative_endpoints), endpoint_views(api_alternative@));
            assert(lists[13] == sources_of(api_alternative_endpoints));
        }
        let s3_region_id = match s3_region_id {
            Some(id) => id,
            None => region_id.clone(),
        };
        Ok(
            Region {
                region_id,
                s3_region_id,
                up: Endpoints::new(up_preferred, Some(up_alternative)),
                io: Endpoints::new(io_preferred, Some(io_alternative)),
                uc: Endpoints::new(uc_preferred, Some(uc_alternative)),
                rs: Endpoints::new(rs_preferred, Some(rs_alternative)),
                rsf: Endpoints::new(rsf_preferred, Some(rsf_alternative)),
                api: Endpoints::new(api_preferred, Some(api_alternative)),
                s3: Endpoints::new(s3_preferred, Some(s3_alternative)),
            },
        )
    }

    /// The ID of the region.
    pub fn get_region_id(&self) -> (r: &str)
        ensures
            r@ == self@.region_id,
    {
        self.region_id.as_str()
    }

    /// The ID of the region at the S3-compatible gateway.
    pub fn get_s3_region_id(&self) -> (r: &str)
        ensures
            r@ == self@.s3_region_id,
    {
        self.s3_region_id.as_str()
    }

    /// The endpoints of the given service.
    pub fn endpoints(&self, service: ServiceName) -> (r: &Endpoints)
        ensures
            r@ == service_endpoints(self@, service),
    {
        match service {
            ServiceName::Up => &self.up,
            ServiceName::Io => &self.io,
            ServiceName::Uc => &self.uc,
            ServiceName::Rs => &self.rs,
            ServiceName::Rsf => &self.rsf,
            ServiceName::Api => &self.api,
            ServiceName::S3 => &self.s3,
        }
    }

    /// The endpoints of the upload service.
    pub fn get_up(&self) -> (r: Endpoints)
        ensures
            r@ == self@.up,
    {
        self.up.clone()
    }

    /// The preferred endpoints of the upload service.
    pub fn get_up_preferred_endpoints(&self) -> (r: Vec<Endpoint>)
        ensures
            endpoint_views(r@) == self@.up.preferred,
    {
        self.up.get_preferred()
    }

    /// The alternative endpoints of the upload service.
    pub fn get_up_alternative_endpoints(&self) -> (r: Vec<Endpoint>)
        ensures
            endpoint_views(r@) == self@.up.alternative,
    {
        self.up.get_alternative()
    }

    /// The endpoints of the download service.
    pub fn get_io(&self) -> (r: Endpoints)
        ensures
            r@ == self@.io,
    {
        self.io.clone()
    }

    /// The preferred endpoints of the download service.
    pub fn get_io_preferred_endpoints(&self) -> (r: Vec<Endpoint>)
        ensures
            endpoint_views(r@) == self@.io.preferred,
    {
        self.io.get_preferred()
    }

    /// The alternative endpoints of the download service.
    pub fn get_io_alternative_endpoints(&self) -> (r: Vec<Endpoint>)
        ensures
            endpoint_views(r@) == self@.io.alternative,
    {
        self.io.get_alternative()
    }

    /// The endpoints of the bucket management service.
    pub fn get_uc(&self) -> (r: Endpoints)
        ensures
            r@ == self@.uc,
    {
        self.uc.clone()
    }

    /// The preferred endpoints of the bucket management service.
    pub fn get_uc_preferred_endpoints(&self) -> (r: Vec<Endpoint>)
        ensures
            endpoint_views(r@) == self@.uc.preferred,
    {
        self.uc.get_preferred()
    }

    /// The alternative endpoints of the bucket management service.
    pub fn get_uc_alternative_endpoints(&self) -> (r: Vec<Endpoint>)
        ensures
            endpoint_views(r@) == self@.uc.alternative,
    {
        self.uc.get_alternative()
    }

    /// The endpoints of the metadata management service.
    pub fn get_rs(&self) -> (r: Endpoints)
        ensures
            r@ == self@.rs,
    {
        self.rs.clone()
    }

    /// The preferred endpoints of the metadata management service.
    pub fn get_rs_preferred_endpoints(&self) -> (r: Vec<Endpoint>)
        ensures
            endpoint_views(r@) == self@.rs.preferred,
    {
        self.rs.get_preferred()
    }

    /// The alternative endpoints of the metadata management service.
    pub fn get_rs_alternative_endpoints(&self) -> (r: Vec<Endpoint>)
        ensures
            endpoint_views(r@) == self@.rs.alternative,
    {
        self.rs.get_alternative()
    }

    /// The endpoints of the metadata listing service.
    pub fn get_rsf(&self) -> (r: Endpoints)
        ensures
            r@ == self@.rsf,
    {
        self.rsf.clone()
    }

    /// The preferred endpoints of the metadata listing service.
    pub fn get_rsf_preferred_endpoints(&self) -> (r: Vec<Endpoint>)
        ensures
            endpoint_views(r@) == self@.rsf.preferred,
    {
        self.rsf.get_preferred()
    }

    /// The alternative endpoints of the metadata listing service.
    pub fn get_rsf_alternative_endpoints(&self) -> (r: Vec<Endpoint>)
        ensures
            endpoint_views(r@) == self@.rsf.alternative,
    {
        self.rsf.get_alternative()
    }

    /// The endpoints of the API gateway.
    pub fn get_api(&self) -> (r: Endpoints)
        ensures
            r@ == self@.api,
    {
        self.api.clone()
    }

    /// The preferred endpoints of the API gateway.
    pub fn get_api_preferred_endpoints(&self) -> (r: Vec<Endpoint>)
        ensures
            endpoint_views(r@) == self@.api.preferred,
    {
        self.api.get_preferred()
    }

    /// The alternative endpoints of the API gateway.
    pub fn get_api_alternative_endpoints(&self) -> (r: Vec<Endpoint>)
        ensures
            endpoint_views(r@) == self@.api.alternative,
    {
        self.api.get_alternative()
    }

    /// The endpoints of the S3-compatible gateway.
    pub fn get_s3(&self) -> (r: Endpoints)
        ensures
            r@ == self@.s3,
    {
        self.s3.clone()
    }

    /// The preferred endpoints of the S3-compatible gateway.
    pub fn get_s3_preferred_endpoints(&self) -> (r: Vec<Endpoint>)
        ensures
            endpoint_views(r@) == self@.s3.preferred,
    {
        self.s3.get_preferred()
    }

    /// The alternative endpoints of the S3-compatible gateway.
    pub fn get_s3_alternative_endpoints(&self) -> (r: Vec<Endpoint>)
        ensures
            endpoint_views(r@) == self@.s3.alternative,
    {
        self.s3.get_alternative()
    }
}

impl Clone for Region {
    fn clone(&self) -> (r: Self)
        ensures
            r@ == self@,
    {
        Region {
            region_id: self.region_id.clone(),
            s3_region_id: self.s3_region_id.clone(),
            up: self.up.clone(),
            io: self.io.clone(),
            uc: self.uc.clone(),
            rs: self.rs.clone(),
            rsf: self.rsf.clone(),
            api: self.api.clone(),
            s3: self.s3.clone(),
        }
    }
}

impl PartialEq for Region {
    fn eq(&self, other: &Self) -> (r: bool) {
        self.region_id == other.region_id && self.s3_region_id == other.s3_region_id
            && self.up == other.up
            && self.io == other.io
            && self.uc == other.uc
            && self.rs == other.rs
            && self.rsf == other.rsf
            && self.api == other.api
            && self.s3 == other.s3
    }
}

impl vstd::std_specs::cmp::PartialEqSpecImpl for Region {
    open spec fn obeys_eq_spec() -> bool {
        true
    }

    open spec fn eq_spec(&self, other: &Self) -> bool {
        self@ == other@
    }
}

} // verus!
