pub mod anonymous_ip_result;
pub mod asn_result;
pub mod city_record;
pub mod city_result;
pub mod connection_type_result;
pub mod continent_record;
pub mod country_record;
pub mod country_result;
pub mod density_income_result;
pub mod enterprise_result;
pub mod geo_location;
pub mod lookup_response;
pub mod isp_result;
pub mod lookup_result;
pub mod postal_record;
pub mod subdivision_record;

use vstd::prelude::*;
use anonymous_ip_result::AnonymousIpResult;
use asn_result::AsnResult;
use city_result::CityResult;
use connection_type_result::ConnectionTypeResult;
use country_result::CountryResult;
use density_income_result::DensityIncomeResult;
use enterprise_result::EnterpriseResult;
use isp_result::IspResult;

verus! {

/// One decoded record, tagged by its shape: the closed set of result
/// forms a lookup may ask for.
pub enum LookupResult {
    AnonymousIp(AnonymousIpResult),
    Asn(AsnResult),
    City(CityResult),
    ConnectionType(ConnectionTypeResult),
    Country(CountryResult),
    DensityIncome(DensityIncomeResult),
    Enterprise(EnterpriseResult),
    Isp(IspResult),
}

} // verus!
