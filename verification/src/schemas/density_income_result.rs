use vstd::prelude::*;

verus! {

/// The owned form of one density-and-income record.
pub struct DensityIncomeResult {
    pub average_income: Option<u32>,
    pub population_density: Option<u32>,
}

} // verus!
