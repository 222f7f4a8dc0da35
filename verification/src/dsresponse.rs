//! Marks a response as destined for the console client, which expects its
//! characteristic `Server` header; the header itself is attached by the HTTP
//! layer.

use vstd::prelude::*;

verus! {

pub struct Ds<T>(pub T);

} // verus!
