//! Capability system: standard capability names and helpers for classifying
//! data precisions.
pub use crate::renderer::{Capability, ProcessingUnitCapability};

pub mod standard;
pub mod helpers;
