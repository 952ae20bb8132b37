use vstd::prelude::*;
use crate::schemas::city_record::CityRecord;
use crate::schemas::country_record::CountryRecord;
use crate::schemas::postal_record::PostalRecord;
use crate::schemas::subdivision_record::SubdivisionRecord;
use crate::schemas::LookupResult;

verus! {

/// The owned form of one city-shaped record.
pub struct CityResult {
    pub city: Option<CityRecord>,
    pub country: Option<CountryRecord>,
    pub postal: Option<PostalRecord>,
    pub subdivisions: Option<Vec<SubdivisionRecord>>,
}

impl CityResult {
    /// Relies on the geoip2 city record of maxminddb: the conversion copies
    /// each part into the owned model, part for part.
    #[verifier::external_body]
    pub fn from_maxmind(city: maxminddb::geoip2::City<'_>) -> (r: LookupResult)
        ensures
            r is City,
    {
        LookupResult::City(Self {
            city: CityRecord::from_maxmind(city.city),
            country: CountryRecord::from_maxmind(city.country),
            postal: PostalRecord::from_maxmind(city.postal),
            subdivisions: city.subdivisions.map(|sub| {
                sub.into_iter().map(|sub| SubdivisionRecord::from_maxmind(Some(sub)).unwrap()).collect()
            }),
        })
    }
}

} // verus!
