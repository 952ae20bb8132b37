use vstd::prelude::*;
use crate::schemas::city_record::CityRecord;
use crate::schemas::country_record::CountryRecord;
use crate::schemas::postal_record::PostalRecord;
use crate::schemas::subdivision_record::SubdivisionRecord;
use crate::schemas::LookupResult;

verus! {

/// The owned form of one enterprise-shaped record.
pub struct EnterpriseResult {
    pub city: Option<CityRecord>,
    pub country: Option<CountryRecord>,
    pub postal: Option<PostalRecord>,
    pub subdivisions: Option<Vec<SubdivisionRecord>>,
}

impl EnterpriseResult {
    /// Relies on the geoip2 enterprise record of maxminddb: the conversion
    /// copies each part into the owned model, part for part.
    #[verifier::external_body]
    pub fn from_maxmind(e: maxminddb::geoip2::Enterprise<'_>) -> (r: LookupResult)
        ensures
            r is Enterprise,
    {
        LookupResult::Enterprise(Self {
            city: CityRecord::from_enterprise(e.city),
            country: CountryRecord::from_enterprise(e.country),
            postal: PostalRecord::from_enterprise(e.postal),
            subdivisions: e.subdivisions.map(|sub| {
                sub.into_iter()
                    .map(|s| SubdivisionRecord::from_enterprise(Some(s)).unwrap())
                    .collect()
            }),
        })
    }
}

} // verus!
