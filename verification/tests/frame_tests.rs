use capture_core::AcquisitionError;
use capture_core::ClipboardImage;
use capture_core::Frame;
use capture_core::PixelLayout;
use capture_core::RawCapture;
use capture_core::decode;
use capture_core::to_clipboard_image;

fn frame(width: u32, height: u32, layout: PixelLayout, data: Vec<u8>) -> Frame {
    Frame { width, height, layout, data }
}

#[test]
fn all_zero_rgb_frame_is_blank() {
    let f = frame(2, 2, PixelLayout::Rgb, vec![0; 12]);
    assert!(f.is_blank());
}

#[test]
fn all_zero_rgba_frame_is_blank() {
    let f = frame(2, 1, PixelLayout::Rgba, vec![0; 8]);
    assert!(f.is_blank());
}

#[test]
fn rgba_frame_with_only_alpha_set_is_blank() {
    // every 4th byte is the alpha/padding channel and is never inspected
    let f = frame(2, 1, PixelLayout::Rgba, vec![0, 0, 0, 255, 0, 0, 0, 255]);
    assert!(f.is_blank());
}

#[test]
fn rgba_frame_with_one_inspected_byte_is_non_blank() {
    let f = frame(2, 1, PixelLayout::Rgba, vec![0, 0, 0, 0, 0, 1, 0, 0]);
    assert!(!f.is_blank());
}

#[test]
fn rgb_frame_with_one_nonzero_byte_is_non_blank() {
    let f = frame(1, 1, PixelLayout::Rgb, vec![0, 0, 3]);
    assert!(!f.is_blank());
}

#[test]
fn fourth_byte_of_rgb_frame_is_inspected() {
    // with no padding channel, byte index 3 carries image content
    let f = frame(2, 1, PixelLayout::Rgb, vec![0, 0, 0, 9, 0, 0]);
    assert!(!f.is_blank());
}

#[test]
fn empty_frame_is_blank() {
    let f = frame(0, 0, PixelLayout::Rgb, vec![]);
    assert!(f.is_blank());
}

#[test]
fn decode_accepts_exact_length() {
    let raw = RawCapture { width: 2, height: 2, layout: PixelLayout::Rgb, bytes: vec![7; 12] };
    let f = decode(raw).unwrap();
    assert_eq!(f.width, 2);
    assert_eq!(f.height, 2);
    assert_eq!(f.layout, PixelLayout::Rgb);
    assert_eq!(f.data, vec![7; 12]);
}

#[test]
fn decode_rejects_short_buffer() {
    let raw = RawCapture { width: 2, height: 2, layout: PixelLayout::Rgba, bytes: vec![0; 15] };
    assert_eq!(decode(raw).unwrap_err(), AcquisitionError::Decode);
}

#[test]
fn decode_rejects_long_buffer() {
    let raw = RawCapture { width: 1, height: 1, layout: PixelLayout::Rgb, bytes: vec![0; 4] };
    assert_eq!(decode(raw).unwrap_err(), AcquisitionError::Decode);
}

#[test]
fn decode_then_sink_keeps_bytes_intact() {
    let pattern: Vec<u8> = (0u8..12u8).collect();
    let raw = RawCapture {
        width: 2,
        height: 2,
        layout: PixelLayout::Rgb,
        bytes: pattern.clone(),
    };
    let f = decode(raw).unwrap();
    let image: ClipboardImage = to_clipboard_image(f);
    assert_eq!(image.width, 2);
    assert_eq!(image.height, 2);
    assert_eq!(image.bytes, pattern);
}
