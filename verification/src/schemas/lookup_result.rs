use vstd::prelude::*;
use crate::ip::IpAddress;
use crate::schemas::geo_location::GeoLocation;

verus! {

/// A result mapping of one lookup call, with the build epoch of the
/// database that served it.
pub struct LookupResult {
    pub results: Vec<(IpAddress, Option<GeoLocation>)>,
    pub database_build_epoch: u64,
}

} // verus!
