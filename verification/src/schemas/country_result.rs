use vstd::prelude::*;
use crate::schemas::continent_record::ContinentRecord;
use crate::schemas::country_record::CountryRecord;
use crate::schemas::LookupResult;

verus! {

/// The owned form of one country-shaped record.
pub struct CountryResult {
    pub continent: Option<ContinentRecord>,
    pub country: Option<CountryRecord>,
    pub registered_country: Option<CountryRecord>,
    pub represented_country: Option<CountryRecord>,
}

impl CountryResult {
    /// Relies on the geoip2 country record of maxminddb: the conversion
    /// copies each part into the owned model, part for part.
    #[verifier::external_body]
    pub fn from_maxmind(country: maxminddb::geoip2::Country<'_>) -> (r: LookupResult)
        ensures
            r is Country,
    {
        LookupResult::Country(Self {
            continent: ContinentRecord::from_maxmind(country.continent),
            country: CountryRecord::from_maxmind(country.country),
            registered_country: CountryRecord::from_maxmind(country.registered_country),
            represented_country: CountryRecord::from_represented(country.represented_country),
        })
    }
}

} // verus!
