//! The descriptions from which the SDK creates its effect contexts.
//!
//! Each is generic over the backend interface `I` it carries, which the library copies
//! from a [`crate::backend::BackendInterface`] and never looks into.
use vstd::prelude::*;

use crate::types::{
    Dimensions2D,
    SurfaceFormat,
    CasColorSpaceConversion,
    SpdDownsampleFilter,
    LensFloatPrecision,
    BrixelizerGIInternalResolution,
    BlurFloatPrecision,
};

verus! {

/// What the SDK needs to create a context for the FSR3 upscaler.
#[derive(Debug)]
pub struct Fsr3UpscalerContextDescription<I> {
    pub flags: u32,
    pub max_render_size: Dimensions2D,
    pub max_upscale_size: Dimensions2D,
    pub backend_interface: I,
}

/// What the SDK needs to create a context for FSR2.
#[derive(Debug)]
pub struct Fsr2ContextDescription<I> {
    pub flags: u32,
    pub max_render_size: Dimensions2D,
    pub display_size: Dimensions2D,
    pub backend_interface: I,
}

/// What the SDK needs to create a context for FSR1.
#[derive(Debug)]
pub struct Fsr1ContextDescription<I> {
    pub flags: u32,
    pub output_format: SurfaceFormat,
    pub max_render_size: Dimensions2D,
    pub display_size: Dimensions2D,
    pub backend_interface: I,
}

/// What the SDK needs to create a context for CAS (contrast adaptive sharpening).
#[derive(Debug)]
pub struct CasContextDescription<I> {
    pub flags: u32,
    pub color_space_conversion: CasColorSpaceConversion,
    pub max_render_size: Dimensions2D,
    pub display_size: Dimensions2D,
    pub backend_interface: I,
}

/// What the SDK needs to create a context for LPM (luminance preserving mapper).
#[derive(Debug)]
pub struct LpmContextDescription<I> {
    pub flags: u32,
    pub backend_interface: I,
}

/// What the SDK needs to create a context for SPD (single pass downsampler).
#[derive(Debug)]
pub struct SpdContextDescription<I> {
    pub flags: u32,
    pub downsample_filter: SpdDownsampleFilter,
    pub backend_interface: I,
}

/// What the SDK needs to create a context for the lens effect.
#[derive(Debug)]
pub struct LensContextDescription<I> {
    pub flags: u32,
    pub output_format: SurfaceFormat,
    pub float_precision: LensFloatPrecision,
    pub backend_interface: I,
}

/// What the SDK needs to create a context for CACAO (ambient occlusion).
#[derive(Debug)]
pub struct CacaoContextDescription<I> {
    pub width: u32,
    pub height: u32,
    pub use_downsampled_ssao: bool,
    pub backend_interface: I,
}

/// What the SDK needs to create a context for Brixelizer GI.
#[derive(Debug)]
pub struct BrixelizerGIContextDescription<I> {
    pub flags: u32,
    pub internal_resolution: BrixelizerGIInternalResolution,
    pub display_size: Dimensions2D,
    pub backend_interface: I,
}

/// What the SDK needs to create a context for the parallel sort.
#[derive(Debug)]
pub struct ParallelSortContextDescription<I> {
    pub flags: u32,
    pub max_entries: u32,
    pub backend_interface: I,
}

/// What the SDK needs to create a context for SSSR (stochastic screen space reflections).
#[derive(Debug)]
pub struct SssrContextDescription<I> {
    pub flags: u32,
    pub render_size: Dimensions2D,
    pub normals_history_buffer_format: SurfaceFormat,
    pub backend_interface: I,
}

/// What the SDK needs to create a context for VRS (variable rate shading).
#[derive(Debug)]
pub struct VrsContextDescription<I> {
    pub flags: u32,
    pub shading_rate_image_tile_size: u32,
    pub backend_interface: I,
}

/// What the SDK needs to create a context for the classifier.
#[derive(Debug)]
pub struct ClassifierContextDescription<I> {
    pub flags: u32,
    pub resolution: Dimensions2D,
    pub backend_interface: I,
}

/// What the SDK needs to create a context for the denoiser.
#[derive(Debug)]
pub struct DenoiserContextDescription<I> {
    pub flags: u32,
    pub window_size: Dimensions2D,
    pub normals_history_buffer_format: SurfaceFormat,
    pub backend_interface: I,
}

/// What the SDK needs to create a context for optical flow.
#[derive(Debug)]
pub struct OpticalflowContextDescription<I> {
    pub flags: u32,
    pub resolution: Dimensions2D,
    pub backend_interface: I,
}

/// What the SDK needs to create a context for the blur effect.
#[derive(Debug)]
pub struct BlurContextDescription<I> {
    pub kernel_permutations: u32,
    pub kernel_sizes: u32,
    pub float_precision: BlurFloatPrecision,
    pub backend_interface: I,
}

} // verus!
