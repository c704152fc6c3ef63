//! Helpers for classifying data precisions.
use vstd::prelude::*;


verus! {

/// Whether a precision counts as high precision: only F64 does.
pub fn is_high_precision(precision: crate::renderer::DataPrecision) -> (r: bool)
    ensures
        r == (precision == crate::renderer::DataPrecision::F64),
{
    matches!(precision, crate::renderer::DataPrecision::F64)
}

/// Whether a precision counts as memory efficient: the 16-bit ones do.
pub fn is_memory_efficient(precision: crate::renderer::DataPrecision) -> (r: bool)
    ensures
        r == (precision == crate::renderer::DataPrecision::F16 || precision
            == crate::renderer::DataPrecision::BFloat16),
{
    matches!(precision, crate::renderer::DataPrecision::F16 | crate::renderer::DataPrecision::BFloat16)
}

} // verus!
