use vstd::prelude::*;

verus! {

/// The plain-text body served by the health endpoint.
pub fn health_body() -> (r: String)
    ensures
        r@ == "Ok"@,
{
    "Ok".to_owned()
}

} // verus!
