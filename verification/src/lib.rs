//! A verified core for driving the AMD FidelityFX SDK: its return codes and their
//! messages, the devices and backend interfaces it hands out, and the descriptions
//! from which its effect contexts are created.
use vstd::prelude::*;

pub mod backend;
pub mod decimal;
pub mod description;
pub mod error;
pub mod types;

pub use backend::{zeroed_scratch, BackendInterface, Device};
pub use description::{
    Fsr3UpscalerContextDescription,
    Fsr2ContextDescription,
    Fsr1ContextDescription,
    CasContextDescription,
    LpmContextDescription,
    SpdContextDescription,
    LensContextDescription,
    CacaoContextDescription,
    BrixelizerGIContextDescription,
    ParallelSortContextDescription,
    SssrContextDescription,
    VrsContextDescription,
    ClassifierContextDescription,
    DenoiserContextDescription,
    OpticalflowContextDescription,
    BlurContextDescription,
};
pub use error::{ok_or_error, ok_or_error_with, FfxError, FFX_OK};
pub use types::{
    Dimensions2D,
    SurfaceFormat,
    CasColorSpaceConversion,
    SpdDownsampleFilter,
    LensFloatPrecision,
    BrixelizerGIInternalResolution,
    BlurFloatPrecision,
};

verus! {

} // verus!
