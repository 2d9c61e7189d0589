//! What the crate keeps to itself.

use vstd::prelude::*;

verus! {

/// This trait cannot be subtraited by downstream crates.
pub trait Sealed {

}

} // verus!
