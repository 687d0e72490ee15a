use ngfx::graphics_capture;
use ngfx::vulkan::gpu_trace;
use ngfx::{check, encode_path, struct_version, ActivityType, Error, RawResult, SdkActivityType};

/// The fields of the SDK's frame-boundary parameter struct: a version word,
/// a queue handle, an output-resource pointer and a resource count.
struct FrameBoundaryParams {
    version: u32,
    queue: usize,
    output_resources: usize,
    num_output_resources: u32,
}

#[test]
fn vulkan_frame_boundary_returns_not_implemented_without_init() {
    // NGFX_MAKE_STRUCT_VERSION(T, v) == sizeof(T) | (v << 16).
    let version = (core::mem::size_of::<FrameBoundaryParams>() as u32) | (1u32 << 16);
    assert_eq!(struct_version::<FrameBoundaryParams>(1), version);
    let params = FrameBoundaryParams {
        version,
        queue: 0,
        output_resources: 0,
        num_output_resources: 0,
    };
    assert_eq!(params.queue + params.output_resources, 0);
    assert_eq!(params.num_output_resources, 0);
    // A table entry that no activity filled in answers NotImplemented.
    let r = check(RawResult::NotImplemented);
    assert_eq!(r, Err(Error(RawResult::NotImplemented)));
}

#[test]
fn check_success_is_ok() {
    assert_eq!(check(RawResult::Success), Ok(()));
}

#[test]
fn check_other_code_is_error_with_that_code() {
    assert_eq!(check(RawResult::Other(7)), Err(Error(RawResult::Other(7))));
    assert_eq!(check(RawResult::Other(-1)).unwrap_err().0, RawResult::Other(-1));
}

#[test]
fn struct_version_of_known_sizes() {
    assert_eq!(struct_version::<u32>(1), 4 | (1 << 16));
    assert_eq!(struct_version::<u64>(2), 8 | (2 << 16));
    assert_eq!(struct_version::<[u8; 40]>(1), 0x0001_0028);
    assert_eq!(struct_version::<()>(0), 0);
}

#[test]
fn struct_version_decodes_back() {
    let v = struct_version::<FrameBoundaryParams>(3);
    assert_eq!((v & 0xffff) as usize, core::mem::size_of::<FrameBoundaryParams>());
    assert_eq!(v >> 16, 3);
}

#[test]
fn struct_version_keeps_low_bits_of_large_versions() {
    // The shift is computed in 32 bits: the top bits of the version are lost.
    assert_eq!(struct_version::<u8>(0x0001_0002), 1 | (2 << 16));
}

#[test]
fn activity_codes() {
    assert_eq!(ActivityType::GraphicsCapture.to_sys(), SdkActivityType::GraphicsCapture);
    assert_eq!(ActivityType::GpuTrace.to_sys(), SdkActivityType::GPUTrace);
    assert_eq!(ActivityType::SystemProfiling.to_sys(), SdkActivityType::SystemProfiling);
}

#[test]
fn activity_codes_are_distinct() {
    let all = [ActivityType::GraphicsCapture, ActivityType::GpuTrace, ActivityType::SystemProfiling];
    for a in all {
        for b in all {
            assert_eq!(a == b, a.to_sys() == b.to_sys());
        }
    }
}

#[test]
fn encode_path_appends_nul() {
    assert_eq!(encode_path("/opt/nvidia/nsight").as_slice(), b"/opt/nvidia/nsight\0");
    assert_eq!(encode_path("").as_slice(), &[0u8][..]);
}

#[test]
fn encode_path_keeps_utf8_bytes() {
    assert_eq!(encode_path("é").as_slice(), &[0xc3u8, 0xa9, 0][..]);
}

#[test]
fn graphics_capture_session_from_successful_inject() {
    assert!(graphics_capture::Session::from_inject(RawResult::Success).is_ok());
}

#[test]
fn graphics_capture_session_from_failed_inject() {
    match graphics_capture::Session::from_inject(RawResult::NotImplemented) {
        Ok(_) => panic!("a failed injection yields no session"),
        Err(e) => assert_eq!(e, Error(RawResult::NotImplemented)),
    }
}

#[test]
fn gpu_trace_session_from_inject() {
    assert!(gpu_trace::Session::from_inject(RawResult::Success).is_ok());
    match gpu_trace::Session::from_inject(RawResult::Other(3)) {
        Ok(_) => panic!("a failed injection yields no session"),
        Err(e) => assert_eq!(e.0, RawResult::Other(3)),
    }
}
