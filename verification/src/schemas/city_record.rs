use vstd::prelude::*;
use std::collections::BTreeMap;

verus! {

/// The city part of a decoded record: its geoname id and localized names.
pub struct CityRecord {
    pub geoname_id: Option<u32>,
    pub names: Option<BTreeMap<String, String>>,
}

impl CityRecord {
    /// Relies on the geoip2 city record of maxminddb: the conversion copies
    /// the geoname id and turns each borrowed name into an owned one.
    #[verifier::external_body]
    pub fn from_maxmind(mm_city: Option<maxminddb::geoip2::city::City<'_>>) -> (r: Option<Self>)
        ensures
            r is Some <==> mm_city is Some,
    {
        mm_city.map(|city| Self {
            geoname_id: city.geoname_id,
            names: city.names.map(|m| {
                m.iter().map(|(k, v)| (k.to_string(), v.to_string())).collect()
            }),
        })
    }

    /// Relies on the geoip2 enterprise city record of maxminddb, as the
    /// conversion above.
    #[verifier::external_body]
    pub fn from_enterprise(mm: Option<maxminddb::geoip2::enterprise::City<'_>>) -> (r: Option<
        Self,
    >)
        ensures
            r is Some <==> mm is Some,
    {
        mm.map(|city| Self {
            geoname_id: city.geoname_id,
            names: city.names.map(|m| {
                m.iter().map(|(k, v)| (k.to_string(), v.to_string())).collect()
            }),
        })
    }
}

} // verus!
