use vstd::prelude::*;

verus! {

/// The owned form of one autonomous-system record.
pub struct AsnResult {
    pub autonomous_system_number: Option<u32>,
    pub autonomous_system_organization: Option<String>,
}

} // verus!
