use vstd::prelude::*;

verus! {

/// Product identifier of the Kraken X62 cooler.
pub const PRODUCT_ID: u16 = 0x170e;

} // verus!
