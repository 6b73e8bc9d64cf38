use vstd::prelude::*;

verus! {

/// Price of the free tier.
pub const G_ZERO: usize = 0;

/// Price of the base tier.
pub const G_BASE: usize = 2;

/// Price of the very-low tier.
pub const G_VERY_LOW: usize = 3;

/// Price of the low tier.
pub const G_LOW: usize = 5;

/// Price of the mid tier.
pub const G_MID: usize = 8;

/// Price of the high tier.
pub const G_HIGH: usize = 10;

} // verus!
