use vstd::prelude::*;
use crate::ip::IpAddress;
use crate::schemas::geo_location::GeoLocation;

verus! {

/// A response carrying one optional decoded location per address, with the
/// build epoch of the database that served it.
pub struct LookupResponse {
    pub results: Vec<(IpAddress, Option<GeoLocation>)>,
    pub database_build_epoch: u64,
}

} // verus!
