use vstd::prelude::*;
use std::collections::BTreeMap;

verus! {

/// The continent part of a decoded record.
pub struct ContinentRecord {
    pub code: Option<String>,
    pub geoname_id: Option<u32>,
    pub names: Option<BTreeMap<String, String>>,
}

impl ContinentRecord {
    /// Relies on the geoip2 continent record of maxminddb: the conversion
    /// copies the code and turns each borrowed name into an owned one.
    #[verifier::external_body]
    pub fn from_maxmind(mm: Option<maxminddb::geoip2::country::Continent<'_>>) -> (r: Option<Self>)
        ensures
            r is Some <==> mm is Some,
    {
        mm.map(|c| Self {
            code: c.code.map(|s| s.to_string()),
            geoname_id: c.geoname_id,
            names: c.names.map(|m| {
                m.iter().map(|(k, v)| (k.to_string(), v.to_string())).collect()
            }),
        })
    }
}

} // verus!
