use vstd::prelude::*;
use crate::point::Scalar;

verus! {

/// An extent: `[width, height]`.
pub type Dimensions = [Scalar; 2];

} // verus!
