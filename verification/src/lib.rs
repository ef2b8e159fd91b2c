//! Region and endpoint resolution for a multi-region object-storage client.
//!
//! The crate models the addresses of the storage services (`Endpoint`,
//! `Endpoints`, `Region`), the providers that hand them out, and the cache
//! that keeps discovered regions fresh.

pub mod all_regions_provider;
pub mod endpoint;
pub mod endpoints;
pub mod endpoints_provider;
pub mod region;
pub mod regions_provider;
pub mod service_name;
pub mod text;
