use lib::{
    zeroed_scratch, BackendInterface, BlurFloatPrecision, BrixelizerGIInternalResolution,
    CasColorSpaceConversion, Device, Dimensions2D, FfxError, LensFloatPrecision,
    SpdDownsampleFilter, SurfaceFormat,
};

const HD: Dimensions2D = Dimensions2D { width: 1280, height: 720 };
const FULL: Dimensions2D = Dimensions2D { width: 1920, height: 1080 };

fn backend() -> BackendInterface<u64> {
    match BackendInterface::from_interface(0xABCDu64, zeroed_scratch(64), 0) {
        Ok(b) => b,
        Err(e) => panic!("backend refused: {:?}", e),
    }
}

#[test]
fn null_device_is_refused() {
    match Device::from_raw(0, 0x55) {
        Err(m) => assert_eq!(m, "ffxGetDeviceVK returned null"),
        Ok(_) => panic!("a null device was accepted"),
    }
}

#[test]
fn device_keeps_its_handles() {
    let d = Device::from_raw(0x7f00_1000, 0x55).expect("device");
    assert_eq!(d.as_raw(), 0x7f00_1000);
    assert_ne!(d.as_raw(), 0);
    assert_eq!(d.physical_device(), 0x55);
}

#[test]
fn scratch_is_zeroed_and_sized() {
    let s = zeroed_scratch(17);
    assert_eq!(s.len(), 17);
    assert!(s.iter().all(|b| *b == 0));
    assert!(zeroed_scratch(0).is_empty());
}

#[test]
fn backend_interface_keeps_interface_and_scratch() {
    let b = backend();
    assert_eq!(*b.as_ref(), 0xABCD);
    assert_eq!(b.scratch_len(), 64);
}

#[test]
fn backend_interface_refused_with_code() {
    match BackendInterface::from_interface(1u64, zeroed_scratch(8), -2147483640) {
        Err(e) => assert_eq!(e, FfxError(-2147483640)),
        Ok(_) => panic!("a failed set-up was accepted"),
    }
}

#[test]
fn interface_can_be_written_in_place() {
    let mut b = backend();
    *b.as_mut_ptr() = 99;
    assert_eq!(*b.as_ref(), 99);
    assert_eq!(b.scratch_len(), 64);
}

#[test]
fn fsr3_upscaler_description() {
    let d = backend().create_fsr3_upscaler(1, HD, FULL);
    assert_eq!(d.flags, 1);
    assert_eq!(d.max_render_size, HD);
    assert_eq!(d.max_upscale_size, FULL);
    assert_eq!(d.backend_interface, 0xABCD);
}

#[test]
fn fsr2_description() {
    let d = backend().create_fsr2(0, HD, FULL);
    assert_eq!((d.flags, d.max_render_size, d.display_size, d.backend_interface), (0, HD, FULL, 0xABCD));
}

#[test]
fn fsr1_description() {
    let d = backend().create_fsr1(2, SurfaceFormat(10), HD, FULL);
    assert_eq!(d.flags, 2);
    assert_eq!(d.output_format, SurfaceFormat(10));
    assert_eq!((d.max_render_size, d.display_size, d.backend_interface), (HD, FULL, 0xABCD));
}

#[test]
fn cas_description() {
    let d = backend().create_cas(0, CasColorSpaceConversion(3), HD, FULL);
    assert_eq!(d.color_space_conversion, CasColorSpaceConversion(3));
    assert_eq!((d.flags, d.max_render_size, d.display_size, d.backend_interface), (0, HD, FULL, 0xABCD));
}

#[test]
fn lpm_description() {
    let d = backend().create_lpm(7);
    assert_eq!((d.flags, d.backend_interface), (7, 0xABCD));
}

#[test]
fn spd_description() {
    let d = backend().create_spd(0, SpdDownsampleFilter(2));
    assert_eq!((d.flags, d.downsample_filter, d.backend_interface), (0, SpdDownsampleFilter(2), 0xABCD));
}

#[test]
fn lens_description() {
    let d = backend().create_lens(0, SurfaceFormat(4), LensFloatPrecision(1));
    assert_eq!(d.output_format, SurfaceFormat(4));
    assert_eq!(d.float_precision, LensFloatPrecision(1));
    assert_eq!((d.flags, d.backend_interface), (0, 0xABCD));
}

#[test]
fn cacao_description() {
    let d = backend().create_cacao(1280, 720, false);
    assert_eq!((d.width, d.height, d.use_downsampled_ssao, d.backend_interface), (1280, 720, false, 0xABCD));
    assert!(backend().create_cacao(640, 360, true).use_downsampled_ssao);
}

#[test]
fn brixelizer_gi_description() {
    let d = backend().create_brixelizer_gi(3, BrixelizerGIInternalResolution(1), HD);
    assert_eq!(d.internal_resolution, BrixelizerGIInternalResolution(1));
    assert_eq!((d.flags, d.display_size, d.backend_interface), (3, HD, 0xABCD));
}

#[test]
fn parallel_sort_description() {
    let d = backend().create_parallel_sort(0, 1024);
    assert_eq!((d.flags, d.max_entries, d.backend_interface), (0, 1024, 0xABCD));
}

#[test]
fn sssr_description() {
    let d = backend().create_sssr(0, HD, SurfaceFormat(4));
    assert_eq!(d.normals_history_buffer_format, SurfaceFormat(4));
    assert_eq!((d.flags, d.render_size, d.backend_interface), (0, HD, 0xABCD));
}

#[test]
fn vrs_description() {
    let d = backend().create_vrs(0, 16);
    assert_eq!((d.flags, d.shading_rate_image_tile_size, d.backend_interface), (0, 16, 0xABCD));
}

#[test]
fn classifier_description() {
    let d = backend().create_classifier(1, HD);
    assert_eq!((d.flags, d.resolution, d.backend_interface), (1, HD, 0xABCD));
}

#[test]
fn denoiser_description() {
    let d = backend().create_denoiser(1, HD, SurfaceFormat(4));
    assert_eq!(d.normals_history_buffer_format, SurfaceFormat(4));
    assert_eq!((d.flags, d.window_size, d.backend_interface), (1, HD, 0xABCD));
}

#[test]
fn optical_flow_description() {
    let d = backend().create_optical_flow(0, FULL);
    assert_eq!((d.flags, d.resolution, d.backend_interface), (0, FULL, 0xABCD));
}

#[test]
fn blur_description() {
    let d = backend().create_blur(7, 3, BlurFloatPrecision(0));
    assert_eq!(d.float_precision, BlurFloatPrecision(0));
    assert_eq!((d.kernel_permutations, d.kernel_sizes, d.backend_interface), (7, 3, 0xABCD));
}

#[test]
fn every_description_carries_the_same_interface() {
    let b = backend();
    let i = *b.as_ref();
    assert_eq!(b.create_lpm(0).backend_interface, i);
    assert_eq!(b.create_vrs(0, 8).backend_interface, i);
    assert_eq!(b.create_blur(0, 0, BlurFloatPrecision(1)).backend_interface, i);
    assert_eq!(b.create_fsr3_upscaler(0, HD, HD).backend_interface, i);
}
