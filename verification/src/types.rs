//! Plain values that the FidelityFX descriptions carry.
//!
//! The SDK's enumerations are C enums; the library holds each by the integer the SDK
//! defines for it and hands that integer on unchanged.
use vstd::prelude::*;

verus! {

/// A width and a height, in pixels.
#[derive(Debug, Clone, Copy, PartialEq, Eq, Structural)]
pub struct Dimensions2D {
    pub width: u32,
    pub height: u32,
}

/// A surface format of the SDK (`FfxSurfaceFormat`), by its value.
#[derive(Debug, Clone, Copy, PartialEq, Eq, Structural)]
pub struct SurfaceFormat(pub u32);

/// A color space conversion of the CAS effect (`FfxCasColorSpaceConversion`), by its value.
#[derive(Debug, Clone, Copy, PartialEq, Eq, Structural)]
pub struct CasColorSpaceConversion(pub u32);

/// A downsampling filter of the SPD effect (`FfxSpdDownsampleFilter`), by its value.
#[derive(Debug, Clone, Copy, PartialEq, Eq, Structural)]
pub struct SpdDownsampleFilter(pub u32);

/// The float precision of the lens effect (`FfxLensFloatPrecision`), by its value.
#[derive(Debug, Clone, Copy, PartialEq, Eq, Structural)]
pub struct LensFloatPrecision(pub u32);

/// The internal resolution of Brixelizer GI (`FfxBrixelizerGIInternalResolution`), by its value.
#[derive(Debug, Clone, Copy, PartialEq, Eq, Structural)]
pub struct BrixelizerGIInternalResolution(pub u32);

/// The float precision of the blur effect (`FfxBlurFloatPrecision`), by its value.
#[derive(Debug, Clone, Copy, PartialEq, Eq, Structural)]
pub struct BlurFloatPrecision(pub u32);

} // verus!
