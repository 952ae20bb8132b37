use vstd::prelude::*;

verus! {

/// The owned form of one internet-service-provider record.
pub struct IspResult {
    pub autonomous_system_number: Option<u32>,
    pub autonomous_system_organization: Option<String>,
    pub isp: Option<String>,
    pub mobile_country_code: Option<String>,
    pub mobile_network_code: Option<String>,
    pub organization: Option<String>,
}

} // verus!
