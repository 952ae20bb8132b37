use vstd::prelude::*;
use crate::ip::IpAddress;
use crate::schemas::LookupResult;

verus! {

/// The response envelope of one lookup call: one optional record per
/// address, and the build epoch of the database that served them.
pub struct LookupResponseModel {
    pub results: Vec<(IpAddress, Option<LookupResult>)>,
    pub database_build_epoch: u64,
}

/// The health endpoint's response marker.
pub struct HealthCheckModel;

} // verus!
