use vstd::prelude::*;
use crate::schemas::LookupResult;

verus! {

/// The owned form of one connection-type record.
pub struct ConnectionTypeResult {
    pub connection_type: Option<String>,
}

impl ConnectionTypeResult {
    /// Relies on the geoip2 connection-type record of maxminddb: the
    /// conversion copies the label into an owned string.
    #[verifier::external_body]
    pub fn from_maxmind(connection_type: maxminddb::geoip2::ConnectionType<'_>) -> (r: LookupResult)
        ensures
            r is ConnectionType,
    {
        LookupResult::ConnectionType(Self {
            connection_type: connection_type.connection_type.map(|s| s.to_string()),
        })
    }
}

} // verus!
