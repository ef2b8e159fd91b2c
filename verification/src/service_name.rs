//! The services of a region.

use vstd::prelude::*;

verus! {

/// One of the seven services that a region offers.
#[derive(Clone, Copy, Debug, PartialEq, Eq, Hash, Structural)]
pub enum ServiceName {
    /// Upload.
    Up,
    /// Download.
    Io,
    /// Bucket management.
    Uc,
    /// Metadata management.
    Rs,
    /// Metadata listing.
    Rsf,
    /// API gateway.
    Api,
    /// S3-compatible gateway.
    S3,
}

/// A number that names no service.
#[derive(Clone, Copy, Debug, PartialEq, Eq, Structural)]
pub struct InvalidServiceNameError {
    pub ordinal: u8,
}

/// The number of services.
pub const SERVICE_COUNT: u8 = 7;

/// The fixed number of a service, counted from 0 in the order of declaration.
pub open spec fn ordinal_of(service: ServiceName) -> u8 {
    match service {
        ServiceName::Up => 0,
        ServiceName::Io => 1,
        ServiceName::Uc => 2,
        ServiceName::Rs => 3,
        ServiceName::Rsf => 4,
        ServiceName::Api => 5,
        ServiceName::S3 => 6,
    }
}

impl ServiceName {
    /// The fixed number of the service.
    pub fn ordinal(self) -> (r: u8)
        ensures
            r == ordinal_of(self),
            r < SERVICE_COUNT,
    {
        match self {
            ServiceName::Up => 0,
            ServiceName::Io => 1,
            ServiceName::Uc => 2,
            ServiceName::Rs => 3,
            ServiceName::Rsf => 4,
            ServiceName::Api => 5,
            ServiceName::S3 => 6,
        }
    }

    /// The service with the given number; numbers from 7 on name none.
    pub fn from_ordinal(ordinal: u8) -> (r: Result<Self, InvalidServiceNameError>)
        ensures
            match r {
                Ok(service) => ordinal_of(service) == ordinal,
                Err(e) => ordinal >= SERVICE_COUNT && e.ordinal == ordinal,
            },
    {
        if ordinal == 0 {
            Ok(ServiceName::Up)
        } else if ordinal == 1 {
            Ok(ServiceName::Io)
        } else if ordinal == 2 {
            Ok(ServiceName::Uc)
        } else if ordinal == 3 {
            Ok(ServiceName::Rs)
        } else if ordinal == 4 {
            Ok(ServiceName::Rsf)
        } else if ordinal == 5 {
            Ok(ServiceName::Api)
        } else if ordinal == 6 {
            Ok(ServiceName::S3)
        } else {
            Err(InvalidServiceNameError { ordinal })
        }
    }

    /// The lower-case name of the service.
    pub fn name(self) -> (r: &'static str)
        ensures
            r@ == service_name_text(self),
    {
        match self {
            ServiceName::Up => "up",
            ServiceName::Io => "io",
            ServiceName::Uc => "uc",
            ServiceName::Rs => "rs",
            ServiceName::Rsf => "rsf",
            ServiceName::Api => "api",
            ServiceName::S3 => "s3",
        }
    }
}

/// The lower-case name of a service.
pub open spec fn service_name_text(service: ServiceName) -> Seq<char> {
    match service {
        ServiceName::Up => "up"@,
        ServiceName::Io => "io"@,
        ServiceName::Uc => "uc"@,
        ServiceName::Rs => "rs"@,
        ServiceName::Rsf => "rsf"@,
        ServiceName::Api => "api"@,
        ServiceName::S3 => "s3"@,
    }
}

/// The numbers of the services are stable and distinct: a service is found
/// again by its number, and two services with one number are the same.
pub proof fn lemma_ordinal_identifies_service(a: ServiceName, b: ServiceName)
    ensures
        ordinal_of(a) < SERVICE_COUNT,
        ordinal_of(a) == ordinal_of(b) ==> a == b,
{
}

} // verus!
