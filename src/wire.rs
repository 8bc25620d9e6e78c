use vstd::prelude::*;

verus! {

/// How a boolean crosses the engine boundary: a 16-bit field holding 0 or 1.
pub open spec fn wire_bool(v: bool) -> u16 {
    if v { 1 } else { 0 }
}

/// Encodes a boolean for the engine.
pub fn bool_to_u16(v: bool) -> (r: u16)
    ensures
        r == wire_bool(v),
{
    if v {
        1
    } else {
        0
    }
}

} // verus!
