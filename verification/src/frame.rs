//! Pixel layouts, decoded frames, and the blank-frame predicate.

use vstd::prelude::*;

verus! {

/// The channel layout of a decoded frame. `Rgba` reserves a trailing
/// alpha/padding channel: the fourth byte of each pixel group carries no
/// image content and is never inspected by the blank-frame predicate.
#[derive(Clone, Copy, Debug, PartialEq, Eq, Structural)]
pub enum PixelLayout {
    Rgb,
    Rgba,
}

impl PixelLayout {
    /// Number of bytes one pixel occupies under this layout.
    pub open spec fn spec_channels(self) -> nat {
        match self {
            PixelLayout::Rgb => 3,
            PixelLayout::Rgba => 4,
        }
    }

    /// Whether the layout reserves a trailing padding/alpha channel.
    pub open spec fn has_padding(self) -> bool {
        self is Rgba
    }

    pub fn channels(self) -> (n: u8)
        ensures
            n as nat == self.spec_channels(),
    {
        match self {
            PixelLayout::Rgb => 3,
            PixelLayout::Rgba => 4,
        }
    }
}

/// Whether byte `i` of a frame's data carries image content under `layout`.
/// When the layout reserves a trailing padding/alpha channel, every fourth
/// byte (channel index 3 of each 4-byte pixel group) is not inspected.
pub open spec fn byte_inspected(layout: PixelLayout, i: int) -> bool {
    !(layout.has_padding() && i % 4 == 3)
}

/// A frame is blank when every inspected byte is zero.
pub open spec fn all_inspected_zero(layout: PixelLayout, data: Seq<u8>) -> bool {
    forall|i: int| 0 <= i < data.len() && byte_inspected(layout, i) ==> data[i] == 0
}

/// Mathematical model of a frame: its dimensions, layout, and pixel bytes.
#[verifier::ext_equal]
pub struct FrameView {
    pub width: u32,
    pub height: u32,
    pub layout: PixelLayout,
    pub data: Seq<u8>,
}

impl FrameView {
    /// The data holds exactly one byte per channel per pixel.
    pub open spec fn wf(self) -> bool {
        self.data.len() == self.width as nat * self.height as nat * self.layout.spec_channels()
    }

    pub open spec fn is_blank(self) -> bool {
        all_inspected_zero(self.layout, self.data)
    }
}

/// A rectangular buffer of pixel samples decoded from a raw capture.
#[derive(Debug)]
pub struct Frame {
    pub width: u32,
    pub height: u32,
    pub layout: PixelLayout,
    pub data: Vec<u8>,
}

impl View for Frame {
    type V = FrameView;

    open spec fn view(&self) -> FrameView {
        FrameView { width: self.width, height: self.height, layout: self.layout, data: self.data@ }
    }
}

impl Frame {
    /// The blank-frame predicate: true iff every inspected byte is zero,
    /// where every fourth byte is skipped when the layout reserves a
    /// trailing padding/alpha channel.
    pub fn is_blank(&self) -> (b: bool)
        ensures
            b == self@.is_blank(),
    {
        let n = self.data.len();
        let mut i: usize = 0;
        while i < n
            invariant
                i <= n,
                n == self.data@.len(),
                forall|j: int| 0 <= j < i && byte_inspected(self.layout, j) ==> self.data@[j] == 0,
            decreases n - i,
        {
            if i % 4 != 3 || !matches!(self.layout, PixelLayout::Rgba) {
                if self.data[i] > 0 {
                    return false;
                }
            }
            i = i + 1;
        }
        true
    }
}

} // verus!
