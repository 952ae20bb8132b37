use vstd::prelude::*;
use std::collections::BTreeMap;

verus! {

/// One subdivision of a decoded record.
pub struct SubdivisionRecord {
    pub iso_code: Option<String>,
    pub names: Option<BTreeMap<String, String>>,
}

impl SubdivisionRecord {
    /// Relies on the geoip2 subdivision record of maxminddb: the conversion
    /// copies the ISO code and turns each borrowed name into an owned one.
    #[verifier::external_body]
    pub fn from_maxmind(mm_sub: Option<maxminddb::geoip2::city::Subdivision<'_>>) -> (r: Option<
        Self,
    >)
        ensures
            r is Some <==> mm_sub is Some,
    {
        mm_sub.map(|sub| Self {
            iso_code: sub.iso_code.map(|s| s.to_string()),
            names: sub.names.map(|m| {
                m.iter().map(|(k, v)| (k.to_string(), v.to_string())).collect()
            }),
        })
    }

    /// Relies on the geoip2 enterprise subdivision record of maxminddb, as
    /// the conversion above.
    #[verifier::external_body]
    pub fn from_enterprise(
        mm: Option<maxminddb::geoip2::enterprise::Subdivision<'_>>,
    ) -> (r: Option<Self>)
        ensures
            r is Some <==> mm is Some,
    {
        mm.map(|sub| Self {
            iso_code: sub.iso_code.map(|s| s.to_string()),
            names: sub.names.map(|m| {
                m.iter().map(|(k, v)| (k.to_string(), v.to_string())).collect()
            }),
        })
    }
}

} // verus!
