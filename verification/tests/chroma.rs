use bevy_gstreamer::error::BevyGstError;
use bevy_gstreamer::types::FrameFormat;
use bevy_gstreamer::yuyv::{buf_yuyv422_to_rgb, yuyv422_to_rgb, yuyv444_to_rgb, yuyv444_to_rgba};

const NOT_422: &str = "Assertion failure, the YUV stream isn't 4:2:2! (wrong number of bytes)";

fn assert_not_422(res: Result<Vec<u8>, BevyGstError>) {
    match res {
        Err(BevyGstError::ProcessFrameError { src, destination, error }) => {
            assert_eq!(src, FrameFormat::YUYV);
            assert_eq!(destination, "RGB888");
            assert_eq!(error, NOT_422);
        }
        other => panic!("expected a malformed-source error, got {:?}", other),
    }
}

fn repeated(group: [u8; 4], groups: usize) -> Vec<u8> {
    let mut data = Vec::new();
    for _ in 0..groups {
        data.extend_from_slice(&group);
    }
    data
}

#[test]
fn peak_white_group_gives_two_equal_white_pixels() {
    let out = yuyv422_to_rgb(&[235, 128, 235, 128], false).unwrap();
    assert_eq!(out.len(), 6);
    assert_eq!(out[0..3], out[3..6]);
    assert_eq!(out, vec![255, 255, 255, 255, 255, 255]);
}

#[test]
fn length_five_is_refused_in_both_modes() {
    assert_not_422(yuyv422_to_rgb(&[1, 2, 3, 4, 5], false));
    assert_not_422(yuyv422_to_rgb(&[1, 2, 3, 4, 5], true));
}

#[test]
fn every_length_off_a_multiple_of_four_is_refused() {
    for len in [1usize, 2, 3, 5, 6, 7, 9, 1023] {
        let data = vec![128u8; len];
        assert_not_422(yuyv422_to_rgb(&data, false));
        assert_not_422(yuyv422_to_rgb(&data, true));
    }
}

#[test]
fn output_length_is_six_or_eight_bytes_per_group() {
    for n in [0usize, 1, 2, 5, 160] {
        let data = vec![77u8; 4 * n];
        assert_eq!(yuyv422_to_rgb(&data, false).unwrap().len(), 6 * n);
        assert_eq!(yuyv422_to_rgb(&data, true).unwrap().len(), 8 * n);
    }
}

#[test]
fn empty_source_gives_empty_image() {
    assert_eq!(yuyv422_to_rgb(&[], false).unwrap(), Vec::<u8>::new());
    assert_eq!(yuyv422_to_rgb(&[], true).unwrap(), Vec::<u8>::new());
}

#[test]
fn studio_white_repeated_is_white() {
    let data = repeated([235, 128, 235, 128], 7);
    let rgb = yuyv422_to_rgb(&data, false).unwrap();
    assert_eq!(rgb, vec![255u8; 42]);
    let rgba = yuyv422_to_rgb(&data, true).unwrap();
    assert_eq!(rgba, vec![255u8; 56]);
}

#[test]
fn studio_black_repeated_is_black() {
    let data = repeated([16, 128, 16, 128], 3);
    let rgb = yuyv422_to_rgb(&data, false).unwrap();
    assert_eq!(rgb, vec![0u8; 18]);
    let rgba = yuyv422_to_rgb(&data, true).unwrap();
    assert_eq!(rgba, repeated([0, 0, 0, 255], 6));
}

#[test]
fn both_pixels_of_a_group_share_the_chroma() {
    // Y1 = 100 and Y2 = 128 with U = 50, V = 200
    let out = yuyv422_to_rgb(&[100, 50, 128, 200], false).unwrap();
    assert_eq!(out[0..3], yuyv444_to_rgb(100, 50, 200));
    assert_eq!(out[3..6], yuyv444_to_rgb(128, 50, 200));
    let out = yuyv422_to_rgb(&[100, 50, 128, 200], true).unwrap();
    assert_eq!(out[0..4], yuyv444_to_rgba(100, 50, 200));
    assert_eq!(out[4..8], yuyv444_to_rgba(128, 50, 200));
}

#[test]
fn pixels_come_out_in_source_order() {
    let out = yuyv422_to_rgb(&[235, 128, 16, 128, 16, 128, 235, 128], true).unwrap();
    assert_eq!(
        out,
        vec![255, 255, 255, 255, 0, 0, 0, 255, 0, 0, 0, 255, 255, 255, 255, 255]
    );
}

#[test]
fn pixel_formula_exact_values() {
    assert_eq!(yuyv444_to_rgb(235, 128, 128), [255, 255, 255]);
    assert_eq!(yuyv444_to_rgb(16, 128, 128), [0, 0, 0]);
    assert_eq!(yuyv444_to_rgb(128, 128, 128), [130, 130, 130]);
    assert_eq!(yuyv444_to_rgb(145, 54, 34), [0, 255, 1]);
    assert_eq!(yuyv444_to_rgba(128, 128, 128), [130, 130, 130, 255]);
}

// The conversion keeps the low eight bits of a channel that leaves 0..=255.
// A clamping conversion would give 255, 0 and 0 where these give 22, 255 and
// 197.
#[test]
fn out_of_range_channels_wrap_and_are_not_clamped() {
    // above the studio range: 278 wraps to 22
    assert_eq!(yuyv444_to_rgb(255, 128, 128), [22, 22, 22]);
    // blue is -1 before truncation
    assert_eq!(yuyv444_to_rgb(81, 90, 240), [255, 0, 255]);
    // blue is -59 before truncation
    assert_eq!(yuyv444_to_rgb(100, 50, 200), [213, 70, 197]);
    assert_eq!(yuyv444_to_rgb(0, 0, 0), [33, 135, 235]);
    assert_eq!(yuyv444_to_rgb(255, 255, 255), [225, 125, 22]);
}

#[test]
fn extreme_samples_do_not_overflow() {
    assert_eq!(yuyv444_to_rgb(i32::MAX, i32::MIN, i32::MAX), [30, 135, 234]);
    assert_eq!(yuyv444_to_rgb(i32::MIN, i32::MAX, i32::MIN), [33, 136, 233]);
    assert_eq!(yuyv444_to_rgba(i32::MAX, i32::MIN, i32::MAX), [30, 135, 234, 255]);
}

#[test]
fn buffer_variant_writes_what_the_allocating_one_returns() {
    let data = [100, 50, 128, 200, 16, 128, 235, 128];
    let mut rgb = [9u8; 12];
    buf_yuyv422_to_rgb(&data, &mut rgb, false).unwrap();
    assert_eq!(rgb.to_vec(), yuyv422_to_rgb(&data, false).unwrap());
    let mut rgba = [9u8; 16];
    buf_yuyv422_to_rgb(&data, &mut rgba, true).unwrap();
    assert_eq!(rgba.to_vec(), yuyv422_to_rgb(&data, true).unwrap());
}

#[test]
fn buffer_variant_refuses_a_wrong_destination_and_leaves_it() {
    let data = [235, 128, 235, 128];
    for len in [0usize, 5, 7, 8, 12] {
        let mut dest = vec![9u8; len];
        match buf_yuyv422_to_rgb(&data, &mut dest, false) {
            Err(BevyGstError::ProcessFrameError { src, destination, error }) => {
                assert_eq!(src, FrameFormat::YUYV);
                assert_eq!(destination, "RGB888");
                assert_eq!(
                    error,
                    format!(
                        "Assertion failure, the destination RGB buffer is of the wrong size! [expected: 6, actual: {}]",
                        len
                    )
                );
            }
            other => panic!("expected a size error, got {:?}", other),
        }
        assert_eq!(dest, vec![9u8; len]);
    }
    let mut dest = vec![9u8; 6];
    match buf_yuyv422_to_rgb(&data, &mut dest, true) {
        Err(BevyGstError::ProcessFrameError { error, .. }) => assert_eq!(
            error,
            "Assertion failure, the destination RGB buffer is of the wrong size! [expected: 8, actual: 6]"
        ),
        other => panic!("expected a size error, got {:?}", other),
    }
    assert_eq!(dest, vec![9u8; 6]);
}

#[test]
fn buffer_variant_checks_the_source_before_the_destination() {
    let mut dest = [9u8; 3];
    match buf_yuyv422_to_rgb(&[1, 2, 3, 4, 5], &mut dest, false) {
        Err(BevyGstError::ProcessFrameError { src, destination, error }) => {
            assert_eq!(src, FrameFormat::YUYV);
            assert_eq!(destination, "RGB888");
            assert_eq!(error, NOT_422);
        }
        other => panic!("expected a malformed-source error, got {:?}", other),
    }
    assert_eq!(dest, [9u8; 3]);
}

#[test]
fn buffer_variant_accepts_empty_source_and_destination() {
    let mut dest: [u8; 0] = [];
    assert!(buf_yuyv422_to_rgb(&[], &mut dest, true).is_ok());
}
