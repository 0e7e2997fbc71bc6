use vstd::prelude::*;

verus! {

/// An edge orientation value.
pub struct Eori(pub i32);

/// A corner orientation value.
pub struct Cori(pub i32);

} // verus!
