use vstd::prelude::*;
use crate::ip::{spec_is_special, IpAddress};

verus! {

/// The check that guards lookups: addresses reserved for private, local,
/// multicast or broadcast use are never sent to the database.
pub trait SpecialIPCheck {
    spec fn spec_special(&self) -> bool;

    fn is_special_ip(&self) -> (b: bool)
        ensures
            b == self.spec_special(),
    ;
}

impl SpecialIPCheck for IpAddress {
    open spec fn spec_special(&self) -> bool {
        spec_is_special(*self)
    }

    fn is_special_ip(&self) -> (b: bool) {
        match *self {
            IpAddress::V4(v) => (v >> 24) == 10 || (v >> 20) == 0xAC1 || (v >> 16) == 0xC0A8
                || (v >> 24) == 127 || (v >> 28) == 0xE || v == 0xFFFF_FFFFu32 || v == 0,
            IpAddress::V6(w) => w == 0 || w == 1 || (w >> 120) == 0xFF,
        }
    }
}

} // verus!
