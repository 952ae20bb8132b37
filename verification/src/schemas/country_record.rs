use vstd::prelude::*;
use std::collections::BTreeMap;

verus! {

/// The country part of a decoded record.
pub struct CountryRecord {
    pub iso_code: Option<String>,
    pub names: Option<BTreeMap<String, String>>,
}

impl CountryRecord {
    /// Relies on the geoip2 country record of maxminddb: the conversion
    /// copies the ISO code and turns each borrowed name into an owned one.
    #[verifier::external_body]
    pub fn from_maxmind(mm_country: Option<maxminddb::geoip2::country::Country<'_>>) -> (r: Option<
        Self,
    >)
        ensures
            r is Some <==> mm_country is Some,
    {
        mm_country.map(|country| Self {
            iso_code: country.iso_code.map(|s| s.to_string()),
            names: country.names.map(|m| {
                m.iter().map(|(k, v)| (k.to_string(), v.to_string())).collect()
            }),
        })
    }

    /// Relies on the geoip2 represented-country record of maxminddb, as the
    /// conversion above.
    #[verifier::external_body]
    pub fn from_represented(
        mm: Option<maxminddb::geoip2::country::RepresentedCountry<'_>>,
    ) -> (r: Option<Self>)
        ensures
            r is Some <==> mm is Some,
    {
        mm.map(|country| Self {
            iso_code: country.iso_code.map(|s| s.to_string()),
            names: country.names.map(|m| {
                m.iter().map(|(k, v)| (k.to_string(), v.to_string())).collect()
            }),
        })
    }

    /// Relies on the geoip2 enterprise country record of maxminddb, as the
    /// conversion above.
    #[verifier::external_body]
    pub fn from_enterprise(
        mm: Option<maxminddb::geoip2::enterprise::Country<'_>>,
    ) -> (r: Option<Self>)
        ensures
            r is Some <==> mm is Some,
    {
        mm.map(|country| Self {
            iso_code: country.iso_code.map(|s| s.to_string()),
            names: country.names.map(|m| {
                m.iter().map(|(k, v)| (k.to_string(), v.to_string())).collect()
            }),
        })
    }
}

} // verus!
