//! Raw capture units, decoding them into frames, and the clipboard payload.

use vstd::prelude::*;

use crate::errors::AcquisitionError;
use crate::frame::Frame;
use crate::frame::FrameView;
use crate::frame::PixelLayout;

verus! {

/// Mathematical model of a raw capture unit.
#[verifier::ext_equal]
pub struct RawCaptureView {
    pub width: u32,
    pub height: u32,
    pub layout: PixelLayout,
    pub bytes: Seq<u8>,
}

/// One raw capture unit pulled from a device: claimed dimensions and layout,
/// and the bytes that came with them.
#[derive(Debug)]
pub struct RawCapture {
    pub width: u32,
    pub height: u32,
    pub layout: PixelLayout,
    pub bytes: Vec<u8>,
}

impl View for RawCapture {
    type V = RawCaptureView;

    open spec fn view(&self) -> RawCaptureView {
        RawCaptureView {
            width: self.width,
            height: self.height,
            layout: self.layout,
            bytes: self.bytes@,
        }
    }
}

/// A raw capture decodes iff its byte count is exactly one byte per channel
/// per pixel; anything else is malformed.
pub open spec fn decode_ok(raw: RawCaptureView) -> bool {
    raw.bytes.len() == raw.width as nat * raw.height as nat * raw.layout.spec_channels()
}

/// The frame a well-formed raw capture decodes to: the same dimensions,
/// layout and bytes, untransformed.
pub open spec fn decoded_view(raw: RawCaptureView) -> FrameView {
    FrameView { width: raw.width, height: raw.height, layout: raw.layout, data: raw.bytes }
}

/// Decode a raw capture unit into a frame, failing on malformed data.
pub fn decode(raw: RawCapture) -> (r: Result<Frame, AcquisitionError>)
    ensures
        r is Ok <==> decode_ok(raw@),
        r is Ok ==> r->Ok_0@ == decoded_view(raw@) && r->Ok_0@.wf(),
        r is Err ==> r->Err_0 == AcquisitionError::Decode,
{
    let w = raw.width as u128;
    let h = raw.height as u128;
    let c = raw.layout.channels() as u128;
    proof {
        assert(w * h <= 0xffff_ffff * 0xffff_ffff && w * h * c <= 0xffff_ffff * 0xffff_ffff * 4)
            by (nonlinear_arith)
            requires
                w <= 0xffff_ffff,
                h <= 0xffff_ffff,
                c <= 4,
        ;
    }
    let expected: u128 = w * h * c;
    if (raw.bytes.len() as u128) == expected {
        Ok(Frame { width: raw.width, height: raw.height, layout: raw.layout, data: raw.bytes })
    } else {
        Err(AcquisitionError::Decode)
    }
}

/// Mathematical model of a clipboard image payload.
#[verifier::ext_equal]
pub struct ClipboardImageView {
    pub width: u32,
    pub height: u32,
    pub bytes: Seq<u8>,
}

/// What a clipboard sink receives: the frame's dimensions and raw pixel
/// bytes, with no transformation in between.
#[derive(Debug)]
pub struct ClipboardImage {
    pub width: u32,
    pub height: u32,
    pub bytes: Vec<u8>,
}

impl View for ClipboardImage {
    type V = ClipboardImageView;

    open spec fn view(&self) -> ClipboardImageView {
        ClipboardImageView { width: self.width, height: self.height, bytes: self.bytes@ }
    }
}

/// The payload a frame hands to a clipboard sink.
pub open spec fn payload_of(f: FrameView) -> ClipboardImageView {
    ClipboardImageView { width: f.width, height: f.height, bytes: f.data }
}

/// Turn a frame into the payload a clipboard sink receives: identical
/// width, height and byte content.
pub fn to_clipboard_image(f: Frame) -> (c: ClipboardImage)
    ensures
        c@ == payload_of(f@),
{
    ClipboardImage { width: f.width, height: f.height, bytes: f.data }
}

/// A raw capture decoded and then handed to a clipboard sink arrives with
/// identical width, height and byte content: neither step transforms it.
pub proof fn lemma_decode_to_sink_round_trip(raw: RawCaptureView)
    requires
        decode_ok(raw),
    ensures
        payload_of(decoded_view(raw)).width == raw.width,
        payload_of(decoded_view(raw)).height == raw.height,
        payload_of(decoded_view(raw)).bytes == raw.bytes,
{
}

} // verus!
