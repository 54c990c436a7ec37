//! Off-screen rendering state: the view size the browser paints at, the last
//! painted frame, and turning that frame into window pixels.

use vstd::prelude::*;

verus! {

/// The last frame the browser painted, BGRA bytes row by row.
pub struct OsrBuffer {
    pub width: i32,
    pub height: i32,
    pub data: Vec<u8>,
}

impl OsrBuffer {
    /// An empty buffer of size 0 x 0.
    pub fn new() -> (b: Self)
        ensures
            b.width == 0,
            b.height == 0,
            b.data@.len() == 0,
    {
        OsrBuffer { width: 0, height: 0, data: Vec::new() }
    }

    /// The size of the frame in pixels, where there is a frame to show: both
    /// sides positive and some pixel data.
    pub fn frame_size(&self) -> (r: Option<(u32, u32)>)
        ensures
            r == (if self.width <= 0 || self.height <= 0 || self.data@.len() == 0 {
                None
            } else {
                Some((self.width as u32, self.height as u32))
            }),
            r matches Some((w, h)) ==> w > 0 && h > 0 && w == self.width && h == self.height,
    {
        if self.width <= 0 || self.height <= 0 || self.data.len() == 0 {
            None
        } else {
            Some((self.width as u32, self.height as u32))
        }
    }
}

/// A rectangle in physical pixels.
#[derive(Clone, Copy, Debug, PartialEq, Eq, Structural)]
pub struct PixelRect {
    pub x: i32,
    pub y: i32,
    pub width: u32,
    pub height: u32,
}

/// The state an off-screen browser view shares between the browser's paint
/// callbacks and the window that shows it.
pub struct OsrState {
    pub buffer: OsrBuffer,
    /// The view size in logical pixels.
    pub view_width: i32,
    pub view_height: i32,
    /// The browser's raw cursor type number, once it has set one.
    pub cursor: Option<u32>,
    /// A new frame arrived that the window has not shown yet.
    pub needs_redraw: bool,
}

/// What an [`OsrState`] holds, as values.
pub struct OsrModel {
    pub frame_width: i32,
    pub frame_height: i32,
    pub frame: Seq<u8>,
    pub view_width: i32,
    pub view_height: i32,
    pub cursor: Option<u32>,
    pub needs_redraw: bool,
}

impl View for OsrState {
    type V = OsrModel;

    open spec fn view(&self) -> OsrModel {
        OsrModel {
            frame_width: self.buffer.width,
            frame_height: self.buffer.height,
            frame: self.buffer.data@,
            view_width: self.view_width,
            view_height: self.view_height,
            cursor: self.cursor,
            needs_redraw: self.needs_redraw,
        }
    }
}

/// A side length of the view: at least 1.
pub open spec fn clamp_side(v: i32) -> i32 {
    if v < 1 { 1 } else { v }
}

impl OsrModel {
    /// The state after the view is resized to `width` x `height`.
    pub open spec fn with_view_size(self, width: i32, height: i32) -> OsrModel {
        OsrModel { view_width: clamp_side(width), view_height: clamp_side(height), ..self }
    }

    /// The state after the redraw flag is read and cleared.
    pub open spec fn after_take(self) -> OsrModel {
        OsrModel { needs_redraw: false, ..self }
    }

    /// The state after the browser painted into a shared GPU texture: the
    /// frame is marked for redraw, nothing else changes.
    pub open spec fn with_gpu_paint(self) -> OsrModel {
        OsrModel { needs_redraw: true, ..self }
    }

    /// The state after the browser changed its cursor to type `raw`.
    pub open spec fn with_cursor(self, raw: u32) -> OsrModel {
        OsrModel { cursor: Some(raw), ..self }
    }

    /// The state after the browser paints a `width` x `height` frame: kept and
    /// marked for redraw when both sides are positive, ignored otherwise.
    pub open spec fn with_paint(self, width: i32, height: i32, pixels: Seq<u8>) -> OsrModel {
        if width > 0 && height > 0 {
            OsrModel {
                frame_width: width,
                frame_height: height,
                frame: pixels,
                needs_redraw: true,
                ..self
            }
        } else {
            self
        }
    }
}

impl OsrState {
    /// A view of the given logical size, with no frame, no cursor and nothing to redraw.
    pub fn new(width: i32, height: i32) -> (s: Self)
        ensures
            s@ == (OsrModel {
                frame_width: 0,
                frame_height: 0,
                frame: Seq::empty(),
                view_width: width,
                view_height: height,
                cursor: None,
                needs_redraw: false,
            }),
    {
        let s = OsrState {
            buffer: OsrBuffer::new(),
            view_width: width,
            view_height: height,
            cursor: None,
            needs_redraw: false,
        };
        assert(s.buffer.data@ =~= Seq::<u8>::empty());
        s
    }

    /// Sets the logical view size; each side is at least 1.
    pub fn set_view_size(&mut self, width: i32, height: i32)
        ensures
            final(self)@ == old(self)@.with_view_size(width, height),
    {
        self.view_width = if width < 1 { 1 } else { width };
        self.view_height = if height < 1 { 1 } else { height };
    }

    /// Reports whether a new frame is waiting, and clears the report.
    pub fn take_needs_redraw(&mut self) -> (r: bool)
        ensures
            r == old(self)@.needs_redraw,
            final(self)@ == old(self)@.after_take(),
    {
        let r = self.needs_redraw;
        self.needs_redraw = false;
        r
    }

    /// Keeps a frame the browser painted and marks it for redraw. A frame with a
    /// side that is not positive is dropped, and nothing changes; the result
    /// says whether the frame was kept.
    pub fn store_paint(&mut self, width: i32, height: i32, pixels: &[u8]) -> (kept: bool)
        ensures
            kept == (width > 0 && height > 0),
            final(self)@ == old(self)@.with_paint(width, height, pixels@),
            kept ==> final(self).buffer.width == width && final(self).buffer.height == height
                && final(self).buffer.data@ == pixels@ && final(self).needs_redraw,
            final(self).view_width == old(self).view_width,
            final(self).view_height == old(self).view_height,
            final(self).cursor == old(self).cursor,
    {
        if width <= 0 || height <= 0 {
            return false;
        }
        self.buffer.width = width;
        self.buffer.height = height;
        self.buffer.data.clear();
        let mut i: usize = 0;
        while i < pixels.len()
            invariant
                i <= pixels@.len(),
                self.buffer.data@ == pixels@.subrange(0, i as int),
                self.buffer.width == width,
                self.buffer.height == height,
                self.view_width == old(self).view_width,
                self.view_height == old(self).view_height,
                self.cursor == old(self).cursor,
            decreases pixels@.len() - i,
        {
            self.buffer.data.push(pixels[i]);
            i = i + 1;
        }
        assert(pixels@.subrange(0, pixels@.len() as int) =~= pixels@);
        self.needs_redraw = true;
        true
    }

    /// Marks a frame the browser painted into a shared GPU texture for redraw.
    pub fn mark_gpu_paint(&mut self)
        ensures
            final(self)@ == old(self)@.with_gpu_paint(),
    {
        self.needs_redraw = true;
    }

    /// Records the browser's cursor type, by its raw number.
    pub fn set_cursor(&mut self, raw: u32)
        ensures
            final(self)@ == old(self)@.with_cursor(raw),
    {
        self.cursor = Some(raw);
    }

    /// The bounds of the view: at the origin, with the view size taken as pixels.
    pub fn bounds(&self) -> (r: PixelRect)
        ensures
            r == (PixelRect { x: 0, y: 0, width: self.view_width as u32, height: self.view_height as u32 }),
    {
        PixelRect { x: 0, y: 0, width: self.view_width as u32, height: self.view_height as u32 }
    }
}

/// Resizing gives sides of at least 1, and resizing again to the same size
/// changes nothing.
pub proof fn lemma_view_size_clamped_and_idempotent(m: OsrModel, width: i32, height: i32)
    ensures
        m.with_view_size(width, height).view_width >= 1,
        m.with_view_size(width, height).view_height >= 1,
        m.with_view_size(width, height).with_view_size(width, height) == m.with_view_size(width, height),
        width >= 1 && height >= 1 ==> m.with_view_size(width, height).view_width == width
            && m.with_view_size(width, height).view_height == height,
{
}

/// A kept frame is reported once for redraw: the first read after the paint
/// says so, a second read does not; reading never changes the frame.
pub proof fn lemma_paint_reported_once(m: OsrModel, width: i32, height: i32, pixels: Seq<u8>)
    requires
        width > 0,
        height > 0,
    ensures
        m.with_paint(width, height, pixels).needs_redraw,
        !m.with_paint(width, height, pixels).after_take().needs_redraw,
        m.with_paint(width, height, pixels).after_take().frame == pixels,
        m.after_take().frame == m.frame,
        m.after_take().frame_width == m.frame_width,
        m.after_take().frame_height == m.frame_height,
{
}

/// A kept frame records its own size and pixels, whatever the view size, and
/// leaves the view size and cursor as they were.
pub proof fn lemma_paint_keeps_its_size(m: OsrModel, width: i32, height: i32, pixels: Seq<u8>)
    requires
        width > 0,
        height > 0,
    ensures
        m.with_paint(width, height, pixels).frame_width == width,
        m.with_paint(width, height, pixels).frame_height == height,
        m.with_paint(width, height, pixels).frame == pixels,
        m.with_paint(width, height, pixels).view_width == m.view_width,
        m.with_paint(width, height, pixels).view_height == m.view_height,
        m.with_paint(width, height, pixels).cursor == m.cursor,
{
}

/// A frame with a side that is not positive leaves the state as it was.
pub proof fn lemma_empty_paint_ignored(m: OsrModel, width: i32, height: i32, pixels: Seq<u8>)
    requires
        width <= 0 || height <= 0,
    ensures
        m.with_paint(width, height, pixels) == m,
{
}

/// The window pixel `0x00RRGGBB` for the BGRA bytes `b`, `g`, `r`.
pub open spec fn xrgb(b: u8, g: u8, r: u8) -> int {
    (r as u32) * 0x10000 + (g as u32) * 0x100 + (b as u32)
}

/// The number of pixels the conversion writes: the whole pixels in `src`, at
/// most as many as `dst` holds.
pub open spec fn converted_pixels(src_len: nat, dst_len: nat) -> nat {
    let n = src_len / 4;
    if n < dst_len { n } else { dst_len }
}

/// Writes the BGRA frame `src` into the window pixels `dst` as `0x00RRGGBB`,
/// pixel by pixel, as far as both reach; the rest of `dst` is left as it was.
pub fn bgra_to_xrgb(src: &[u8], dst: &mut [u32])
    ensures
        final(dst)@.len() == old(dst)@.len(),
        forall|i: int|
            0 <= i < converted_pixels(src@.len(), old(dst)@.len()) ==> #[trigger] final(dst)@[i]
                == xrgb(src@[4 * i], src@[4 * i + 1], src@[4 * i + 2]),
        forall|i: int|
            converted_pixels(src@.len(), old(dst)@.len()) <= i < old(dst)@.len()
                ==> #[trigger] final(dst)@[i] == old(dst)@[i],
{
    let pixel_count: usize = src.len() / 4;
    let count: usize = if pixel_count < dst.len() { pixel_count } else { dst.len() };
    let mut i: usize = 0;
    while i < count
        invariant
            count == converted_pixels(src@.len(), old(dst)@.len()),
            count <= src@.len() / 4,
            i <= count,
            dst@.len() == old(dst)@.len(),
            forall|j: int|
                0 <= j < i ==> #[trigger] dst@[j] == xrgb(src@[4 * j], src@[4 * j + 1], src@[4 * j + 2]),
            forall|j: int| i <= j < dst@.len() ==> #[trigger] dst@[j] == old(dst)@[j],
        decreases count - i,
    {
        let n: usize = src.len();
        assert(i * 4 + 3 < n) by (nonlinear_arith)
            requires
                i < count,
                count <= n / 4,
        ;
        let b = src[i * 4] as u32;
        let g = src[i * 4 + 1] as u32;
        let r = src[i * 4 + 2] as u32;
        let px: u32 = (r << 16) | (g << 8) | b;
        assert(px == r * 0x10000 + g * 0x100 + b) by (bit_vector)
            requires
                r < 256 && g < 256 && b < 256,
                px == (r << 16) | (g << 8) | b,
        ;
        dst[i] = px;
        i = i + 1;
    }
}

/// A window pixel holds blue in its low byte, green in the next and red in the
/// third; the top byte is 0.
pub proof fn lemma_xrgb_channels(b: u8, g: u8, r: u8)
    ensures
        xrgb(b, g, r) % 256 == b as int,
        (xrgb(b, g, r) / 256) % 256 == g as int,
        (xrgb(b, g, r) / 65536) % 256 == r as int,
        0 <= xrgb(b, g, r) < 0x100_0000,
{
    assert(xrgb(b, g, r) % 256 == b as int) by (nonlinear_arith)
        requires xrgb(b, g, r) == (r as int) * 0x10000 + (g as int) * 0x100 + (b as int), b < 256, g < 256, r < 256;
    assert((xrgb(b, g, r) / 256) % 256 == g as int) by (nonlinear_arith)
        requires xrgb(b, g, r) == (r as int) * 0x10000 + (g as int) * 0x100 + (b as int), b < 256, g < 256, r < 256;
    assert((xrgb(b, g, r) / 65536) % 256 == r as int) by (nonlinear_arith)
        requires xrgb(b, g, r) == (r as int) * 0x10000 + (g as int) * 0x100 + (b as int), b < 256, g < 256, r < 256;
}

/// As many pixels are converted as both buffers hold whole: every whole source
/// pixel when the destination is large enough, the whole destination otherwise.
pub proof fn lemma_converted_pixels(src_len: nat, dst_len: nat)
    ensures
        converted_pixels(src_len, dst_len) <= dst_len,
        4 * converted_pixels(src_len, dst_len) <= src_len,
        src_len / 4 <= dst_len ==> converted_pixels(src_len, dst_len) == src_len / 4,
        dst_len <= src_len / 4 ==> converted_pixels(src_len, dst_len) == dst_len,
{
}

} // verus!
