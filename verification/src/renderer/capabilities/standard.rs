//! Standard capability names used throughout the renderer system.
use vstd::prelude::*;

verus! {

/// Basic rendering capability
pub const RENDERING: &'static str = "rendering";

/// GPU acceleration capability
pub const GPU_ACCELERATION: &'static str = "gpu_acceleration";

/// CPU-based rendering capability
pub const CPU_RENDERING: &'static str = "cpu_rendering";

/// Real-time rendering capability
pub const REALTIME: &'static str = "realtime";

/// High-precision computation capability
pub const HIGH_PRECISION: &'static str = "high_precision";

/// Memory-efficient operations capability
pub const MEMORY_EFFICIENT: &'static str = "memory_efficient";

/// Tile-based rendering capability
pub const TILE_BASED: &'static str = "tile_based";

/// 3D Gaussian splatting capability
pub const GAUSSIAN_SPLATTING: &'static str = "gaussian_splatting";

} // verus!
