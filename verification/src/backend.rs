//! The device and the backend interface through which the SDK's effects are created.
use vstd::prelude::*;

use crate::description::{
    Fsr3UpscalerContextDescription,
    Fsr2ContextDescription,
    Fsr1ContextDescription,
    CasContextDescription,
    LpmContextDescription,
    SpdContextDescription,
    LensContextDescription,
    CacaoContextDescription,
    BrixelizerGIContextDescription,
    ParallelSortContextDescription,
    SssrContextDescription,
    VrsContextDescription,
    ClassifierContextDescription,
    DenoiserContextDescription,
    OpticalflowContextDescription,
    BlurContextDescription,
};
use crate::error::{ok_or_error, FfxError, FFX_OK};
use crate::types::{
    Dimensions2D,
    SurfaceFormat,
    CasColorSpaceConversion,
    SpdDownsampleFilter,
    LensFloatPrecision,
    BrixelizerGIInternalResolution,
    BlurFloatPrecision,
};

verus! {

/// The message with which a device is refused when the backend handed out a null handle.
pub open spec fn null_device_message() -> Seq<char> {
    "ffxGetDeviceVK returned null"@
}

/// A FidelityFX device that the Vulkan backend handed out, with the Vulkan physical
/// device it belongs to. Handles are held by their address; a device never holds a null one.
pub struct Device {
    raw: u64,
    physical_device: u64,
}

impl Device {
    #[verifier::type_invariant]
    spec fn inv(self) -> bool {
        self.raw != 0
    }

    /// The device handle.
    pub closed spec fn raw_handle(self) -> u64 {
        self.raw
    }

    /// The Vulkan physical device.
    pub closed spec fn physical_device_handle(self) -> u64 {
        self.physical_device
    }

    /// Takes the device handle that the backend returned for `physical_device`, and
    /// refuses a null handle as the SDK's device query failing.
    pub fn from_raw(raw: u64, physical_device: u64) -> (res: Result<Device, &'static str>)
        ensures
            res is Err <==> raw == 0,
            res matches Ok(d) ==> d.raw_handle() == raw && d.physical_device_handle()
                == physical_device,
            res matches Err(m) ==> m@ == null_device_message(),
    {
        if raw == 0 {
            Err("ffxGetDeviceVK returned null")
        } else {
            Ok(Device { raw, physical_device })
        }
    }

    /// The device handle, which is never null.
    pub fn as_raw(&self) -> (r: u64)
        ensures
            r == self.raw_handle(),
            r != 0,
    {
        proof {
            use_type_invariant(self);
        }
        self.raw
    }

    /// The Vulkan physical device this device belongs to.
    pub fn physical_device(&self) -> (p: u64)
        ensures
            p == self.physical_device_handle(),
    {
        self.physical_device
    }
}

/// A scratch buffer of `size` bytes, all zero, for the backend interface to work in.
pub fn zeroed_scratch(size: usize) -> (v: Vec<u8>)
    ensures
        v@.len() == size,
        forall|i: int| 0 <= i < size ==> v@[i] == 0u8,
{
    let v: Vec<u8> = vec![0u8; size];
    v
}

/// A backend interface of the SDK together with the scratch memory it works in.
///
/// `I` is the interface the backend filled in; the library copies it into every
/// description it makes and never looks into it. The scratch memory lives as long as
/// the interface, so every context created through the interface may use it.
pub struct BackendInterface<I> {
    inner: I,
    scratch: Vec<u8>,
}

impl<I: Copy> BackendInterface<I> {
    /// The interface that the backend filled in.
    pub closed spec fn interface(self) -> I {
        self.inner
    }

    /// The scratch memory the interface works in.
    pub closed spec fn scratch(self) -> Seq<u8> {
        self.scratch@
    }

    /// Takes the interface the backend filled in over `scratch`, and the code its
    /// set-up returned: the pair when the code is `FFX_OK`, the code as an error otherwise.
    pub fn from_interface(interface: I, scratch: Vec<u8>, code: i32) -> (res: Result<Self, FfxError>)
        ensures
            res is Ok <==> code == FFX_OK,
            res matches Ok(b) ==> b.interface() == interface && b.scratch() == scratch@,
            res matches Err(e) ==> e.0 == code,
    {
        match ok_or_error(code) {
            Ok(()) => Ok(BackendInterface { inner: interface, scratch }),
            Err(e) => Err(e),
        }
    }

    /// The interface.
    pub fn as_ref(&self) -> (r: &I)
        ensures
            *r == self.interface(),
    {
        &self.inner
    }

    /// The interface, to be handed to the SDK for it to write in; the scratch memory stays as it was.
    pub fn as_mut_ptr(&mut self) -> (r: &mut I)
        ensures
            *r == old(self).interface(),
            final(self).interface() == *final(r),
            final(self).scratch() == old(self).scratch(),
    {
        &mut self.inner
    }

    /// The number of bytes of scratch memory.
    pub fn scratch_len(&self) -> (n: usize)
        ensures
            n == self.scratch().len(),
    {
        self.scratch.len()
    }

    /// Describes the context for the FSR3 upscaler that this interface backs: the arguments as
    /// given and this interface.
    pub fn create_fsr3_upscaler(&self, flags: u32, render_size: Dimensions2D, upscale_size: Dimensions2D) -> (d: Fsr3UpscalerContextDescription<I>)
        ensures
            d == (Fsr3UpscalerContextDescription { flags: flags, max_render_size: render_size, max_upscale_size: upscale_size, backend_interface: self.interface() }),
    {
        Fsr3UpscalerContextDescription { flags: flags, max_render_size: render_size, max_upscale_size: upscale_size, backend_interface: *self.as_ref() }
    }

    /// Describes the context for FSR2 that this interface backs: the arguments as
    /// given and this interface.
    pub fn create_fsr2(&self, flags: u32, render_size: Dimensions2D, display_size: Dimensions2D) -> (d: Fsr2ContextDescription<I>)
        ensures
            d == (Fsr2ContextDescription { flags: flags, max_render_size: render_size, display_size: display_size, backend_interface: self.interface() }),
    {
        Fsr2ContextDescription { flags: flags, max_render_size: render_size, display_size: display_size, backend_interface: *self.as_ref() }
    }

    /// Describes the context for FSR1 that this interface backs: the arguments as
    /// given and this interface.
    pub fn create_fsr1(&self, flags: u32, output_format: SurfaceFormat, render_size: Dimensions2D, display_size: Dimensions2D) -> (d: Fsr1ContextDescription<I>)
        ensures
            d == (Fsr1ContextDescription { flags: flags, output_format: output_format, max_render_size: render_size, display_size: display_size, backend_interface: self.interface() }),
    {
        Fsr1ContextDescription { flags: flags, output_format: output_format, max_render_size: render_size, display_size: display_size, backend_interface: *self.as_ref() }
    }

    /// Describes the context for CAS (contrast adaptive sharpening) that this interface backs: the arguments as
    /// given and this interface.
    pub fn create_cas(&self, flags: u32, color_space: CasColorSpaceConversion, render_size: Dimensions2D, display_size: Dimensions2D) -> (d: CasContextDescription<I>)
        ensures
            d == (CasContextDescription { flags: flags, color_space_conversion: color_space, max_render_size: render_size, display_size: display_size, backend_interface: self.interface() }),
    {
        CasContextDescription { flags: flags, color_space_conversion: color_space, max_render_size: render_size, display_size: display_size, backend_interface: *self.as_ref() }
    }

    /// Describes the context for LPM (luminance preserving mapper) that this interface backs: the arguments as
    /// given and this interface.
    pub fn create_lpm(&self, flags: u32) -> (d: LpmContextDescription<I>)
        ensures
            d == (LpmContextDescription { flags: flags, backend_interface: self.interface() }),
    {
        LpmContextDescription { flags: flags, backend_interface: *self.as_ref() }
    }

    /// Describes the context for SPD (single pass downsampler) that this interface backs: the arguments as
    /// given and this interface.
    pub fn create_spd(&self, flags: u32, downsample_filter: SpdDownsampleFilter) -> (d: SpdContextDescription<I>)
        ensures
            d == (SpdContextDescription { flags: flags, downsample_filter: downsample_filter, backend_interface: self.interface() }),
    {
        SpdContextDescription { flags: flags, downsample_filter: downsample_filter, backend_interface: *self.as_ref() }
    }

    /// Describes the context for the lens effect that this interface backs: the arguments as
    /// given and this interface.
    pub fn create_lens(&self, flags: u32, output_format: SurfaceFormat, float_precision: LensFloatPrecision) -> (d: LensContextDescription<I>)
        ensures
            d == (LensContextDescription { flags: flags, output_format: output_format, float_precision: float_precision, backend_interface: self.interface() }),
    {
        LensContextDescription { flags: flags, output_format: output_format, float_precision: float_precision, backend_interface: *self.as_ref() }
    }

    /// Describes the context for CACAO (ambient occlusion) that this interface backs: the arguments as
    /// given and this interface.
    pub fn create_cacao(&self, width: u32, height: u32, use_downsampled_ssao: bool) -> (d: CacaoContextDescription<I>)
        ensures
            d == (CacaoContextDescription { width: width, height: height, use_downsampled_ssao: use_downsampled_ssao, backend_interface: self.interface() }),
    {
        CacaoContextDescription { width: width, height: height, use_downsampled_ssao: use_downsampled_ssao, backend_interface: *self.as_ref() }
    }

    /// Describes the context for Brixelizer GI that this interface backs: the arguments as
    /// given and this interface.
    pub fn create_brixelizer_gi(&self, flags: u32, internal_resolution: BrixelizerGIInternalResolution, display_size: Dimensions2D) -> (d: BrixelizerGIContextDescription<I>)
        ensures
            d == (BrixelizerGIContextDescription { flags: flags, internal_resolution: internal_resolution, display_size: display_size, backend_interface: self.interface() }),
    {
        BrixelizerGIContextDescription { flags: flags, internal_resolution: internal_resolution, display_size: display_size, backend_interface: *self.as_ref() }
    }

    /// Describes the context for the parallel sort that this interface backs: the arguments as
    /// given and this interface.
    pub fn create_parallel_sort(&self, flags: u32, max_entries: u32) -> (d: ParallelSortContextDescription<I>)
        ensures
            d == (ParallelSortContextDescription { flags: flags, max_entries: max_entries, backend_interface: self.interface() }),
    {
        ParallelSortContextDescription { flags: flags, max_entries: max_entries, backend_interface: *self.as_ref() }
    }

    /// Describes the context for SSSR (stochastic screen space reflections) that this interface backs: the arguments as
    /// given and this interface.
    pub fn create_sssr(&self, flags: u32, render_size: Dimensions2D, normals_format: SurfaceFormat) -> (d: SssrContextDescription<I>)
        ensures
            d == (SssrContextDescription { flags: flags, render_size: render_size, normals_history_buffer_format: normals_format, backend_interface: self.interface() }),
    {
        SssrContextDescription { flags: flags, render_size: render_size, normals_history_buffer_format: normals_format, backend_interface: *self.as_ref() }
    }

    /// Describes the context for VRS (variable rate shading) that this interface backs: the arguments as
    /// given and this interface.
    pub fn create_vrs(&self, flags: u32, shading_rate_tile_size: u32) -> (d: VrsContextDescription<I>)
        ensures
            d == (VrsContextDescription { flags: flags, shading_rate_image_tile_size: shading_rate_tile_size, backend_interface: self.interface() }),
    {
        VrsContextDescription { flags: flags, shading_rate_image_tile_size: shading_rate_tile_size, backend_interface: *self.as_ref() }
    }

    /// Describes the context for the classifier that this interface backs: the arguments as
    /// given and this interface.
    pub fn create_classifier(&self, flags: u32, resolution: Dimensions2D) -> (d: ClassifierContextDescription<I>)
        ensures
            d == (ClassifierContextDescription { flags: flags, resolution: resolution, backend_interface: self.interface() }),
    {
        ClassifierContextDescription { flags: flags, resolution: resolution, backend_interface: *self.as_ref() }
    }

    /// Describes the context for the denoiser that this interface backs: the arguments as
    /// given and this interface.
    pub fn create_denoiser(&self, flags: u32, window_size: Dimensions2D, normals_format: SurfaceFormat) -> (d: DenoiserContextDescription<I>)
        ensures
            d == (DenoiserContextDescription { flags: flags, window_size: window_size, normals_history_buffer_format: normals_format, backend_interface: self.interface() }),
    {
        DenoiserContextDescription { flags: flags, window_size: window_size, normals_history_buffer_format: normals_format, backend_interface: *self.as_ref() }
    }

    /// Describes the context for optical flow that this interface backs: the arguments as
    /// given and this interface.
    pub fn create_optical_flow(&self, flags: u32, resolution: Dimensions2D) -> (d: OpticalflowContextDescription<I>)
        ensures
            d == (OpticalflowContextDescription { flags: flags, resolution: resolution, backend_interface: self.interface() }),
    {
        OpticalflowContextDescription { flags: flags, resolution: resolution, backend_interface: *self.as_ref() }
    }

    /// Describes the context for the blur effect that this interface backs: the arguments as
    /// given and this interface.
    pub fn create_blur(&self, kernel_permutations: u32, kernel_sizes: u32, float_precision: BlurFloatPrecision) -> (d: BlurContextDescription<I>)
        ensures
            d == (BlurContextDescription { kernel_permutations: kernel_permutations, kernel_sizes: kernel_sizes, float_precision: float_precision, backend_interface: self.interface() }),
    {
        BlurContextDescription { kernel_permutations: kernel_permutations, kernel_sizes: kernel_sizes, float_precision: float_precision, backend_interface: *self.as_ref() }
    }
}

} // verus!
