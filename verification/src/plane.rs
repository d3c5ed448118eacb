//! The toolkit's interface to the plane-geometry collaborator.
//!
//! A plane's equation `ax + by + cz = d` can be solved for one
//! coordinate once the other two are fixed.  [`TwoValues`] names the
//! pair of coordinates that are fixed; the collaborator that owns the
//! plane arithmetic plugs them in and solves for the third.

use vstd::prelude::*;

use crate::scalar::Scalar;

verus! {

/// Two fixed coordinates of a point on a plane, named by the pair of
/// axes they lie on; the remaining coordinate is the one to solve for.
#[derive(Clone, Copy, Debug)]
pub enum TwoValues {
    YZ(Scalar, Scalar),
    XZ(Scalar, Scalar),
    XY(Scalar, Scalar),
}

} // verus!
