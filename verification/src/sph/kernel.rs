//! Smoothing kernels.  Evaluating a kernel is floating-point work done
//! outside; here is the kernel type.
use vstd::prelude::*;

verus! {

/// Cubic B-spline kernel in three dimensions.
#[derive(Debug, Clone, Copy, PartialEq, Eq, Structural)]
pub struct CubicBSpline3D;

impl CubicBSpline3D {
    /// Spatial dimension the kernel is normalized for.
    pub const DIMENSION: i32 = 3;
}

} // verus!
