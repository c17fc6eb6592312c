//! The frames that the renderer hands over.

use vstd::arithmetic::div_mod::{lemma_fundamental_div_mod, lemma_fundamental_div_mod_converse};
use vstd::prelude::*;

verus! {

/// The largest width and height that a pixmap can have.
pub const MAX_EXTENT: u32 = 0xFFFF;

/// One rendered picture: rows of pixels from top to bottom, each pixel three
/// bytes, red, green and blue.
#[derive(Clone, Debug)]
pub struct Frame {
    /// The number of pixels in a row.
    pub width: u32,
    /// The number of rows.
    pub height: u32,
    /// The pixels, row after row.
    pub pixels: Vec<u8>,
}

/// A buffer of four bytes for each pixel without the fourth byte of each:
/// red, green and blue stay, the fourth byte goes.
pub open spec fn without_alpha(rgba: Seq<u8>) -> Seq<u8> {
    Seq::new((rgba.len() / 4 * 3) as nat, |i: int| rgba[i / 3 * 4 + i % 3])
}

impl Frame {
    /// Whether the frame can be published: it is not empty, it is no wider
    /// and no higher than a pixmap can be, and its buffer holds three bytes
    /// for each of its pixels.
    pub open spec fn is_valid(self) -> bool {
        &&& 1 <= self.width <= MAX_EXTENT
        &&& 1 <= self.height <= MAX_EXTENT
        &&& self.pixels@.len() == self.width * self.height * 3
    }

    /// The frame of the given size whose pixels are those of `rgba`, a buffer
    /// of four bytes for each pixel, without their fourth byte. There is no
    /// frame where the size is not one that can be published, or where the
    /// buffer does not hold four bytes for each pixel.
    pub fn from_rgba(width: u32, height: u32, rgba: &[u8]) -> (frame: Option<Frame>)
        ensures
            frame is Some <==> {
                &&& 1 <= width <= MAX_EXTENT
                &&& 1 <= height <= MAX_EXTENT
                &&& rgba@.len() == width * height * 4
            },
            frame matches Some(frame) ==> {
                &&& frame.is_valid()
                &&& frame.width == width
                &&& frame.height == height
                &&& frame.pixels@ == without_alpha(rgba@)
            },
    {
        if width < 1 || width > MAX_EXTENT || height < 1 || height > MAX_EXTENT {
            return None;
        }
        assert(width * height <= 0xFFFF * 0xFFFF) by (nonlinear_arith)
            requires
                width <= 0xFFFF,
                height <= 0xFFFF,
        ;
        let expected: u64 = width as u64 * height as u64 * 4;
        if rgba.len() as u64 != expected {
            return None;
        }
        let total: usize = rgba.len();
        let count: usize = total / 4;
        let mut pixels: Vec<u8> = Vec::new();
        let mut pixel: usize = 0;
        while pixel < count
            invariant
                total == rgba@.len(),
                total == count * 4,
                pixel <= count,
                pixels@.len() == pixel * 3,
                forall|i: int| 0 <= i < pixels@.len() ==> pixels@[i] == rgba@[i / 3 * 4 + i % 3],
            decreases count - pixel,
        {
            pixels.push(rgba[pixel * 4]);
            pixels.push(rgba[pixel * 4 + 1]);
            pixels.push(rgba[pixel * 4 + 2]);
            pixel += 1;
        }
        assert(pixels@ =~= without_alpha(rgba@));
        Some(Frame { width, height, pixels })
    }

    /// Whether the frame can be published.
    pub fn check(&self) -> (valid: bool)
        ensures
            valid == self.is_valid(),
    {
        if self.width < 1 || self.width > MAX_EXTENT || self.height < 1 || self.height
            > MAX_EXTENT {
            return false;
        }
        assert(self.width * self.height * 3 <= 0xFFFF * 0xFFFF * 3) by (nonlinear_arith)
            requires
                self.width <= 0xFFFF,
                self.height <= 0xFFFF,
        ;
        let expected: u64 = self.width as u64 * self.height as u64 * 3;
        self.pixels.len() as u64 == expected
    }
}

/// The place where the renderer leaves a frame for the compositor. It holds
/// at most one frame: a frame that is left while another one waits takes its
/// place, so that the compositor always gets the latest one and the renderer
/// never waits.
pub struct FrameSlot {
    waiting: Option<Frame>,
}

impl View for FrameSlot {
    type V = Option<Frame>;

    closed spec fn view(&self) -> Option<Frame> {
        self.waiting
    }
}

impl Default for FrameSlot {
    /// A slot in which no frame waits.
    fn default() -> (slot: Self)
        ensures
            slot@ is None,
    {
        FrameSlot::new()
    }
}

impl FrameSlot {
    /// A slot in which no frame waits.
    pub fn new() -> (slot: FrameSlot)
        ensures
            slot@ is None,
    {
        FrameSlot { waiting: None }
    }

    /// Leaves a frame for the compositor. The frame that waited, if one did,
    /// is stale: it is handed back to be dropped.
    pub fn offer(&mut self, frame: Frame) -> (stale: Option<Frame>)
        ensures
            final(self)@ == Some(frame),
            stale == old(self)@,
    {
        let mut waiting = Some(frame);
        std::mem::swap(&mut self.waiting, &mut waiting);
        waiting
    }

    /// Takes the frame that waits, if one does, and leaves the slot empty.
    pub fn take(&mut self) -> (frame: Option<Frame>)
        ensures
            final(self)@ is None,
            frame == old(self)@,
    {
        let mut waiting = None;
        std::mem::swap(&mut self.waiting, &mut waiting);
        waiting
    }

    /// Whether a frame waits.
    pub fn is_waiting(&self) -> (waiting: bool)
        ensures
            waiting == self@ is Some,
    {
        self.waiting.is_some()
    }
}

/// How the display server wants the rows of an image: how many bits a pixel
/// takes, and to how many bits each row is filled up.
#[derive(Clone, Copy, Debug, PartialEq, Eq, Structural)]
pub struct ImageLayout {
    /// The bits of one pixel: 24 or 32.
    pub bits_per_pixel: u8,
    /// The bits that the length of a row is a multiple of: 8, 16 or 32.
    pub scanline_pad: u8,
}

impl ImageLayout {
    /// Whether the layout is one that a three-byte pixel can be laid out in.
    pub open spec fn is_valid(self) -> bool {
        &&& self.bits_per_pixel == 24 || self.bits_per_pixel == 32
        &&& self.scanline_pad == 8 || self.scanline_pad == 16 || self.scanline_pad == 32
    }

    /// The bytes of one pixel.
    pub open spec fn pixel_bytes(self) -> int {
        self.bits_per_pixel as int / 8
    }

    /// The bytes that the length of a row is a multiple of.
    pub open spec fn pad_bytes(self) -> int {
        self.scanline_pad as int / 8
    }

    /// The bytes of one row of `width` pixels, with its filling.
    pub open spec fn stride(self, width: int) -> int {
        (width * self.pixel_bytes() + self.pad_bytes() - 1) / self.pad_bytes() * self.pad_bytes()
    }

    /// Whether the layout is one that a three-byte pixel can be laid out in.
    pub fn check(&self) -> (valid: bool)
        ensures
            valid == self.is_valid(),
    {
        (self.bits_per_pixel == 24 || self.bits_per_pixel == 32) && (self.scanline_pad == 8
            || self.scanline_pad == 16 || self.scanline_pad == 32)
    }
}

/// The byte at place `i` of the image that the display server is given.
///
/// Rows follow each other, each filled up with zero bytes to the length that
/// the layout asks for. Within a row the pixels follow each other, each with
/// its most significant byte first: a pixel of four bytes is a zero byte,
/// then red, green and blue; a pixel of three bytes is red, green and blue.
pub open spec fn packed_byte(frame: Frame, layout: ImageLayout, i: int) -> u8 {
    let stride = layout.stride(frame.width as int);
    let row = i / stride;
    let within = i % stride;
    let pixel_bytes = layout.pixel_bytes();
    if within < frame.width * pixel_bytes {
        let column = within / pixel_bytes;
        let byte = within % pixel_bytes;
        let lead = pixel_bytes - 3;
        if byte < lead {
            0u8
        } else {
            frame.pixels@[(row * frame.width + column) * 3 + (byte - lead)]
        }
    } else {
        0u8
    }
}

/// The length of the image that the display server is given.
pub open spec fn packed_len(frame: Frame, layout: ImageLayout) -> int {
    layout.stride(frame.width as int) * frame.height
}

/// The image that the display server is given for a frame.
pub open spec fn packed(frame: Frame, layout: ImageLayout) -> Seq<u8> {
    Seq::new(packed_len(frame, layout) as nat, |i: int| packed_byte(frame, layout, i))
}

/// Where the byte `byte` of the pixel in column `column` of row `row` lies in
/// the image, and that it lies within the row.
proof fn lemma_locate(stride: int, pixel_bytes: int, row: int, column: int, byte: int)
    requires
        pixel_bytes > 0,
        0 <= byte < pixel_bytes,
        0 <= column,
        0 <= row,
        column * pixel_bytes + byte < stride,
    ensures
        (row * stride + column * pixel_bytes + byte) / stride == row,
        (row * stride + column * pixel_bytes + byte) % stride == column * pixel_bytes + byte,
        (column * pixel_bytes + byte) / pixel_bytes == column,
        (column * pixel_bytes + byte) % pixel_bytes == byte,
{
    assert(0 <= column * pixel_bytes) by (nonlinear_arith)
        requires
            0 <= column,
            0 < pixel_bytes,
    ;
    lemma_fundamental_div_mod_converse(
        row * stride + column * pixel_bytes + byte,
        stride,
        row,
        column * pixel_bytes + byte,
    );
    lemma_fundamental_div_mod_converse(column * pixel_bytes + byte, pixel_bytes, column, byte);
}

/// A filling byte lies in its row, behind the pixels.
proof fn lemma_locate_fill(stride: int, row: int, within: int)
    requires
        0 <= row,
        0 <= within < stride,
    ensures
        (row * stride + within) / stride == row,
        (row * stride + within) % stride == within,
{
    lemma_fundamental_div_mod_converse(row * stride + within, stride, row, within);
}

/// The bounds that keep the places of a frame's bytes in range.
proof fn lemma_extents(width: int, height: int, stride: int, row: int, column: int)
    requires
        0 <= row < height,
        0 <= column < width,
        0 <= stride,
    ensures
        (row * width + column) * 3 + 2 < width * height * 3,
        0 <= row * width + column,
        row * stride + stride <= stride * height,
        0 <= row * stride,
{
    assert(row * width + width <= height * width) by (nonlinear_arith)
        requires
            0 <= row < height,
            0 <= width,
    ;
    assert(0 <= row * width) by (nonlinear_arith)
        requires
            0 <= row,
            0 <= width,
    ;
    assert(row * stride + stride <= stride * height) by (nonlinear_arith)
        requires
            0 <= row < height,
            0 <= stride,
    ;
    assert(0 <= row * stride) by (nonlinear_arith)
        requires
            0 <= row,
            0 <= stride,
    ;
    assert(height * width == width * height) by (nonlinear_arith);
}

/// Where a pixel can be found in the image: channel `channel` of the pixel in
/// column `column` of row `row` lies behind `row` rows and `column` pixels,
/// and behind the leading zero byte of a pixel of four bytes.
pub proof fn lemma_packed_pixel(
    frame: Frame,
    layout: ImageLayout,
    row: int,
    column: int,
    channel: int,
)
    requires
        frame.is_valid(),
        layout.is_valid(),
        0 <= row < frame.height,
        0 <= column < frame.width,
        0 <= channel < 3,
    ensures
        ({
            let stride = layout.stride(frame.width as int);
            let lead = layout.pixel_bytes() - 3;
            let at = row * stride + column * layout.pixel_bytes() + lead + channel;
            &&& 0 <= at < packed_len(frame, layout)
            &&& packed(frame, layout)[at] == frame.pixels@[(row * frame.width + column) * 3
                + channel]
            &&& lead == 1 ==> packed(frame, layout)[row * stride + column * 4] == 0
        }),
{
    let width = frame.width as int;
    let pixel_bytes = layout.pixel_bytes();
    let stride = layout.stride(width);
    let lead = pixel_bytes - 3;
    lemma_stride(width, layout);
    lemma_extents(width, frame.height as int, stride, row, column);
    assert(column * pixel_bytes + pixel_bytes <= width * pixel_bytes) by (nonlinear_arith)
        requires
            0 <= column < width,
            0 <= pixel_bytes,
    ;
    lemma_locate(stride, pixel_bytes, row, column, lead + channel);
    lemma_locate(stride, pixel_bytes, row, column, 0);
}

/// A row with its filling is at least as long as its pixels, at most three
/// bytes longer, and a multiple of what the layout asks for.
pub proof fn lemma_stride(width: int, layout: ImageLayout)
    requires
        layout.is_valid(),
        0 <= width,
    ensures
        width * layout.pixel_bytes() <= layout.stride(width) <= width * layout.pixel_bytes() + 3,
        layout.stride(width) % layout.pad_bytes() == 0,
        layout.stride(width) - width * layout.pixel_bytes() < layout.pad_bytes(),
{
    let pad = layout.pad_bytes();
    let rounded = width * layout.pixel_bytes() + pad - 1;
    assert(0 <= width * layout.pixel_bytes()) by (nonlinear_arith)
        requires
            0 <= width,
            0 <= layout.pixel_bytes(),
    ;
    lemma_fundamental_div_mod(rounded, pad);
    assert(rounded / pad * pad == pad * (rounded / pad)) by (nonlinear_arith);
    lemma_fundamental_div_mod_converse(layout.stride(width), pad, rounded / pad, 0);
}

impl Frame {
    /// Lays the frame out as the image that the display server is given for
    /// it. There is no image for a frame or a layout that is not valid, nor
    /// for an image that memory could not hold.
    pub fn pack(&self, layout: ImageLayout) -> (image: Option<Vec<u8>>)
        ensures
            image is Some <==> self.is_valid() && layout.is_valid() && packed_len(*self, layout)
                <= usize::MAX,
            image matches Some(bytes) ==> bytes@ == packed(*self, layout),
    {
        if !self.check() || !layout.check() {
            return None;
        }
        let pixel_bytes: usize = (layout.bits_per_pixel / 8) as usize;
        let pad_bytes: usize = (layout.scanline_pad / 8) as usize;
        let width: usize = self.width as usize;
        let height: usize = self.height as usize;
        assert(width * pixel_bytes <= 0xFFFF * 4) by (nonlinear_arith)
            requires
                width <= 0xFFFF,
                pixel_bytes <= 4,
        ;
        let row_bytes: usize = width * pixel_bytes;
        let blocks: usize = (row_bytes + pad_bytes - 1) / pad_bytes;
        proof {
            let rounded = (row_bytes + pad_bytes - 1) as int;
            lemma_fundamental_div_mod(rounded, pad_bytes as int);
            assert(blocks * pad_bytes == pad_bytes * blocks) by (nonlinear_arith);
        }
        let stride: usize = blocks * pad_bytes;
        assert(stride * height <= (0xFFFF * 4 + 3) * 0xFFFF) by (nonlinear_arith)
            requires
                stride <= 0xFFFF * 4 + 3,
                height <= 0xFFFF,
        ;
        let total: u64 = stride as u64 * height as u64;
        if total > usize::MAX as u64 {
            return None;
        }
        let lead: usize = pixel_bytes - 3;
        let count: usize = self.pixels.len();
        let ghost frame = *self;
        let mut bytes: Vec<u8> = Vec::new();
        let mut row: usize = 0;
        while row < height
            invariant
                frame == *self,
                self.is_valid(),
                layout.is_valid(),
                width == self.width,
                height == self.height,
                pixel_bytes == layout.pixel_bytes(),
                lead == pixel_bytes - 3,
                row_bytes == width * pixel_bytes,
                stride == layout.stride(width as int),
                row_bytes <= stride <= row_bytes + 3,
                stride * height <= usize::MAX,
                count == width * height * 3,
                row <= height,
                bytes@.len() == row * stride,
                forall|i: int| 0 <= i < bytes@.len() ==> bytes@[i] == packed_byte(frame, layout, i),
            decreases height - row,
        {
            proof {
                lemma_extents(width as int, height as int, stride as int, row as int, 0);
            }
            let mut column: usize = 0;
            while column < width
                invariant
                    frame == *self,
                    self.is_valid(),
                    layout.is_valid(),
                    width == self.width,
                    height == self.height,
                    pixel_bytes == layout.pixel_bytes(),
                    lead == pixel_bytes - 3,
                    row_bytes == width * pixel_bytes,
                    stride == layout.stride(width as int),
                    row_bytes <= stride <= row_bytes + 3,
                    stride * height <= usize::MAX,
                    count == width * height * 3,
                    row < height,
                    column <= width,
                    row * stride + stride <= stride * height,
                    bytes@.len() == row * stride + column * pixel_bytes,
                    forall|i: int|
                        0 <= i < bytes@.len() ==> bytes@[i] == packed_byte(frame, layout, i),
                decreases width - column,
            {
                proof {
                    lemma_extents(
                        width as int,
                        height as int,
                        stride as int,
                        row as int,
                        column as int,
                    );
                    assert(column * pixel_bytes + pixel_bytes <= width * pixel_bytes)
                        by (nonlinear_arith)
                        requires
                            column < width,
                            0 <= pixel_bytes,
                    ;
                    assert((column + 1) * pixel_bytes == column * pixel_bytes + pixel_bytes)
                        by (nonlinear_arith);
                }
                assert(row * width + column < width * height);
                let base: usize = (row * width + column) * 3;
                if lead == 1 {
                    proof {
                        lemma_locate(
                            stride as int,
                            pixel_bytes as int,
                            row as int,
                            column as int,
                            0,
                        );
                    }
                    bytes.push(0);
                }
                proof {
                    lemma_locate(
                        stride as int,
                        pixel_bytes as int,
                        row as int,
                        column as int,
                        lead as int,
                    );
                    lemma_locate(
                        stride as int,
                        pixel_bytes as int,
                        row as int,
                        column as int,
                        lead + 1,
                    );
                    lemma_locate(
                        stride as int,
                        pixel_bytes as int,
                        row as int,
                        column as int,
                        lead + 2,
                    );
                }
                bytes.push(self.pixels[base]);
                bytes.push(self.pixels[base + 1]);
                bytes.push(self.pixels[base + 2]);
                column += 1;
            }
            let mut within: usize = row_bytes;
            while within < stride
                invariant
                    frame == *self,
                    width == self.width,
                    pixel_bytes == layout.pixel_bytes(),
                    row_bytes == width * pixel_bytes,
                    stride == layout.stride(width as int),
                    row_bytes <= within <= stride,
                    stride * height <= usize::MAX,
                    row < height,
                    row * stride + stride <= stride * height,
                    bytes@.len() == row * stride + within,
                    forall|i: int|
                        0 <= i < bytes@.len() ==> bytes@[i] == packed_byte(frame, layout, i),
                decreases stride - within,
            {
                proof {
                    lemma_locate_fill(stride as int, row as int, within as int);
                }
                bytes.push(0);
                within += 1;
            }
            proof {
                assert((row + 1) * stride == row * stride + stride) by (nonlinear_arith);
            }
            row += 1;
        }
        proof {
            assert(bytes@.len() == stride * height) by (nonlinear_arith)
                requires
                    bytes@.len() == row * stride,
                    row == height,
            ;
            assert(bytes@ =~= packed(frame, layout));
        }
        Some(bytes)
    }
}

} // verus!
