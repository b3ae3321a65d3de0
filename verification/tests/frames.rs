use facegate::brokerd::frame_from_probe;
use facegate::camera::{grey_to_rgb, StubCamera};
use facegate::ipc::{FrameFormat, FrameProbe};

#[test]
fn frame_from_probe_bgr_swaps_channels() {
    let probe = FrameProbe {
        format: FrameFormat::Bgr8,
        width: 1,
        height: 1,
        captured_at_ms: 1,
        bytes: vec![10, 20, 30], // B=10, G=20, R=30
    };
    let frame = frame_from_probe(&probe).expect("decode");
    assert_eq!(frame.data, vec![30, 20, 10]); // RGB
}

#[test]
fn frame_from_probe_gray_expands_to_rgb() {
    let probe = FrameProbe {
        format: FrameFormat::Gray8,
        width: 2,
        height: 1,
        captured_at_ms: 1,
        bytes: vec![42, 200],
    };
    let frame = frame_from_probe(&probe).expect("decode");
    assert_eq!(frame.data, vec![42, 42, 42, 200, 200, 200]);
}

#[test]
fn grey_2x1_to_rgb() {
    let rgb = grey_to_rgb(&[10, 240], 2, 1).unwrap();
    assert_eq!(rgb, vec![10, 10, 10, 240, 240, 240]);
}

#[test]
fn stub_open_ok() {
    let mut cam = StubCamera::open("/dev/video0", 640, 360, 30).unwrap();
    assert!(cam.capture_frame().is_err());
}
