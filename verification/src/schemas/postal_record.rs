use vstd::prelude::*;

verus! {

/// The postal part of a decoded record.
pub struct PostalRecord {
    pub code: Option<String>,
}

impl PostalRecord {
    /// Relies on the geoip2 postal record of maxminddb: the conversion
    /// copies the code into an owned string.
    #[verifier::external_body]
    pub fn from_maxmind(mm_postal: Option<maxminddb::geoip2::city::Postal<'_>>) -> (r: Option<
        Self,
    >)
        ensures
            r is Some <==> mm_postal is Some,
    {
        mm_postal.map(|postal| Self { code: postal.code.map(|s| s.to_string()) })
    }

    /// Relies on the geoip2 enterprise postal record of maxminddb, as the
    /// conversion above.
    #[verifier::external_body]
    pub fn from_enterprise(
        mm: Option<maxminddb::geoip2::enterprise::Postal<'_>>,
    ) -> (r: Option<Self>)
        ensures
            r is Some <==> mm is Some,
    {
        mm.map(|postal| Self { code: postal.code.map(|s| s.to_string()) })
    }
}

} // verus!
