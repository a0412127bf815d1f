//! The pixel buffer: CPU-side pixel memory matched to a platform's native
//! format, with row-level access to the raw bytes.
//!
//! The buffer owns a contiguous byte region of exactly
//! `width * height * bytes_per_pixel` bytes, laid out row by row from the
//! top. Construction validates the requested format against the platform the
//! resolved surface target belongs to; afterwards the dimensions and the
//! format never change, and every row handed out is exactly `row_len` bytes.

use vstd::prelude::*;
use vstd::slice::slice_subrange;

use crate::format::{PixelBufferFormatType, Platform};
use crate::handle::{DisplayHandleKind, SurfaceTarget, WindowHandleKind};
use crate::handle::{resolve_target, spec_resolve_target};

verus! {

/// Why constructing a pixel buffer failed.
#[derive(Clone, Copy, Debug, PartialEq, Eq, Structural)]
pub enum PixelBufferCreationError {
    /// The requested format is not the native format of the platform the
    /// surface belongs to. No conversion is performed.
    FormatNotSupported,
    /// The supplied handles carry a platform tag no compiled backend
    /// matches, or lack a required display connection.
    HandleMismatch,
    /// The platform could not produce the backing native image or context.
    /// Reported by the platform backend that performs the native calls.
    NativeResourceCreationFailed,
}

/// CPU-side pixel memory bound to one surface target.
pub struct PixelBuffer {
    width: u32,
    height: u32,
    format: PixelBufferFormatType,
    target: SurfaceTarget,
    pixels: Vec<u8>,
}

impl View for PixelBuffer {
    type V = Seq<u8>;

    /// The buffer's pixel memory, top row first.
    closed spec fn view(&self) -> Seq<u8> {
        self.pixels@
    }
}

/// The number of bytes a buffer of the given dimensions and format holds.
pub open spec fn spec_buffer_len(width: u32, height: u32, format: PixelBufferFormatType) -> int {
    width * height * format.spec_bytes_per_pixel()
}

/// Row `i` of a byte region laid out as `rl`-byte rows: the window
/// `[i * rl, (i + 1) * rl)`.
pub open spec fn spec_row_of(s: Seq<u8>, rl: int, i: int) -> Seq<u8> {
    s.subrange(i * rl, (i + 1) * rl)
}

/// The byte region `s` with row `i`'s window replaced by `data`.
pub open spec fn spec_splice_row(s: Seq<u8>, rl: int, i: int, data: Seq<u8>) -> Seq<u8> {
    s.subrange(0, i * rl) + data + s.subrange((i + 1) * rl, s.len() as int)
}

/// The byte region `s` after writing `pattern[i]` into row `i`'s window
/// for every row the pattern covers, in ascending row order.
pub open spec fn spec_write_rows(s: Seq<u8>, rl: int, pattern: Seq<Seq<u8>>) -> Seq<u8>
    decreases pattern.len(),
{
    if pattern.len() == 0 {
        s
    } else {
        spec_splice_row(
            spec_write_rows(s, rl, pattern.drop_last()),
            rl,
            pattern.len() - 1,
            pattern.last(),
        )
    }
}

impl PixelBuffer {
    /// The buffer's width in pixels.
    pub closed spec fn spec_width(self) -> u32 {
        self.width
    }

    /// The buffer's height in pixels.
    pub closed spec fn spec_height(self) -> u32 {
        self.height
    }

    /// The buffer's pixel format.
    pub closed spec fn spec_format(self) -> PixelBufferFormatType {
        self.format
    }

    /// The surface target the buffer was constructed for.
    pub closed spec fn spec_target(self) -> SurfaceTarget {
        self.target
    }

    /// The number of bytes in one row: `width * bytes_per_pixel`.
    pub open spec fn spec_row_len(self) -> int {
        self.spec_width() * self.spec_format().spec_bytes_per_pixel()
    }

    /// Well-formedness: the format is the native format of the target's
    /// platform, the pixel memory is exactly `height` rows of `row_len`
    /// bytes, and a row's byte count fits the machine's word size.
    pub open spec fn wf(self) -> bool {
        &&& self.spec_format() == self.spec_target().spec_platform().spec_native_format()
        &&& self@.len() == spec_buffer_len(self.spec_width(), self.spec_height(), self.spec_format())
        &&& self.spec_row_len() <= usize::MAX
    }

    /// Row `i` of the pixel memory: the `row_len`-byte window starting at
    /// `i * row_len`.
    pub open spec fn spec_row(self, i: int) -> Seq<u8> {
        spec_row_of(self@, self.spec_row_len(), i)
    }

    /// The pixel memory with row `i`'s window replaced by `data`.
    pub open spec fn spec_with_row(self, i: int, data: Seq<u8>) -> Seq<u8> {
        spec_splice_row(self@, self.spec_row_len(), i, data)
    }

    /// Allocates a pixel buffer for the surface the given handles identify.
    ///
    /// Fails with `HandleMismatch` when the handles resolve to no surface
    /// target, and with `FormatNotSupported` when the requested format is
    /// not the platform's native format; in both cases nothing is
    /// allocated. Otherwise the buffer holds
    /// `width * height * bytes_per_pixel` bytes, every byte the platform's
    /// opaque default fill.
    pub fn new(
        width: u32,
        height: u32,
        format: PixelBufferFormatType,
        window_handle: WindowHandleKind,
        display_handle: DisplayHandleKind,
    ) -> (r: Result<PixelBuffer, PixelBufferCreationError>)
        requires
            (spec_resolve_target(window_handle, display_handle) matches Some(target)
                && format == target.spec_platform().spec_native_format()) ==> {
                &&& spec_buffer_len(width, height, format) <= usize::MAX
                &&& width * format.spec_bytes_per_pixel() <= usize::MAX
            },
        ensures
            match spec_resolve_target(window_handle, display_handle) {
                None => r == Err::<PixelBuffer, PixelBufferCreationError>(
                    PixelBufferCreationError::HandleMismatch,
                ),
                Some(target) => {
                    if format != target.spec_platform().spec_native_format() {
                        r == Err::<PixelBuffer, PixelBufferCreationError>(
                            PixelBufferCreationError::FormatNotSupported,
                        )
                    } else {
                        &&& r matches Ok(buf)
                        &&& buf.wf()
                        &&& buf.spec_width() == width
                        &&& buf.spec_height() == height
                        &&& buf.spec_format() == format
                        &&& buf.spec_target() == target
                        &&& buf@ == Seq::new(
                            spec_buffer_len(width, height, format) as nat,
                            |i: int| target.spec_platform().spec_default_fill(),
                        )
                    }
                },
            },
    {
        let target = match resolve_target(window_handle, display_handle) {
            Some(t) => t,
            None => {
                return Err(PixelBufferCreationError::HandleMismatch);
            },
        };
        let platform = target.platform();
        if format != platform.native_format() {
            return Err(PixelBufferCreationError::FormatNotSupported);
        }
        let bpp = format.bytes_per_pixel();
        let w = width as usize;
        let h = height as usize;
        assert(w * h <= w * h * bpp && w * h * bpp == spec_buffer_len(width, height, format))
            by (nonlinear_arith)
            requires
                w == width as int,
                h == height as int,
                bpp == format.spec_bytes_per_pixel(),
                3 <= bpp,
                spec_buffer_len(width, height, format) == width * height
                    * format.spec_bytes_per_pixel(),
        ;
        let len = w * h * bpp;
        let fill = platform.default_fill();
        let pixels: Vec<u8> = vec![fill; len];
        proof {
            assert(pixels@ =~= Seq::new(
                spec_buffer_len(width, height, format) as nat,
                |i: int| target.spec_platform().spec_default_fill(),
            ));
        }
        Ok(PixelBuffer { width, height, format, target, pixels })
    }

    /// The buffer's width in pixels, as given at construction.
    pub fn width(&self) -> (w: u32)
        ensures
            w == self.spec_width(),
    {
        self.width
    }

    /// The buffer's height in pixels, as given at construction.
    pub fn height(&self) -> (h: u32)
        ensures
            h == self.spec_height(),
    {
        self.height
    }

    /// The buffer's pixel format.
    pub fn format(&self) -> (f: PixelBufferFormatType)
        ensures
            f == self.spec_format(),
    {
        self.format
    }

    /// The surface target the buffer was constructed for.
    pub fn target(&self) -> (t: SurfaceTarget)
        ensures
            t == self.spec_target(),
    {
        self.target
    }

    /// The platform the buffer's surface belongs to.
    pub fn platform(&self) -> (p: Platform)
        ensures
            p == self.spec_target().spec_platform(),
    {
        self.target.platform()
    }

    /// Bytes per pixel of the buffer's format.
    pub fn bytes_per_pixel(&self) -> (n: usize)
        ensures
            n == self.spec_format().spec_bytes_per_pixel(),
    {
        self.format.bytes_per_pixel()
    }

    /// Bits per pixel of the buffer's format.
    pub fn bits_per_pixel(&self) -> (n: usize)
        ensures
            n == self.spec_format().spec_bits_per_pixel(),
    {
        self.format.bits_per_pixel()
    }

    /// The number of bytes in one row: `width * bytes_per_pixel`.
    pub fn row_len(&self) -> (n: usize)
        requires
            self.wf(),
        ensures
            n == self.spec_row_len(),
    {
        let w = self.width as usize;
        let bpp = self.format.bytes_per_pixel();
        w * bpp
    }

    /// The whole pixel memory, top row first.
    pub fn bytes(&self) -> (s: &[u8])
        ensures
            s@ == self@,
    {
        self.pixels.as_slice()
    }

    /// The total number of bytes of pixel memory.
    pub fn len(&self) -> (n: usize)
        ensures
            n == self@.len(),
    {
        self.pixels.len()
    }

    /// Row `row`, or nothing when `row` is out of range. The returned slice
    /// is exactly `row_len` bytes.
    pub fn row(&self, row: u32) -> (r: Option<&[u8]>)
        requires
            self.wf(),
        ensures
            match r {
                Some(s) => row < self.spec_height() && s@ == self.spec_row(row as int),
                None => row >= self.spec_height(),
            },
    {
        if row >= self.height {
            return None;
        }
        let total = self.pixels.len();
        let rl = self.row_len();
        proof {
            lemma_row_window(
                self.spec_width() as int,
                self.spec_height() as int,
                self.spec_format().spec_bytes_per_pixel() as int,
                row as int,
                total as int,
            );
        }
        let start = row as usize * rl;
        let end = start + rl;
        Some(slice_subrange(self.pixels.as_slice(), start, end))
    }

    /// Mutable access to row `row`, or nothing when `row` is out of range.
    /// The handed-out slice starts as exactly that row's `row_len` bytes;
    /// whatever is written through it lands in that row's window of the
    /// pixel memory and nowhere else, and the dimensions, format and target
    /// are untouched.
    pub fn row_mut(&mut self, row: u32) -> (r: Option<&mut [u8]>)
        requires
            old(self).wf(),
        ensures
            row < old(self).spec_height() ==> {
                &&& r is Some
                &&& r.unwrap()@ == old(self).spec_row(row as int)
                &&& final(self)@ == old(self).spec_with_row(row as int, final(r.unwrap())@)
            },
            row >= old(self).spec_height() ==> r is None && final(self)@ == old(self)@,
            final(self).spec_width() == old(self).spec_width(),
            final(self).spec_height() == old(self).spec_height(),
            final(self).spec_format() == old(self).spec_format(),
            final(self).spec_target() == old(self).spec_target(),
    {
        if row >= self.height {
            return None;
        }
        let total = self.pixels.len();
        let rl = self.row_len();
        proof {
            lemma_row_window(
                self.spec_width() as int,
                self.spec_height() as int,
                self.spec_format().spec_bytes_per_pixel() as int,
                row as int,
                total as int,
            );
        }
        let start = row as usize * rl;
        let whole = self.pixels.as_mut_slice();
        let (_front, back) = whole.split_at_mut(start);
        let (mid, _rest) = back.split_at_mut(rl);
        Some(mid)
    }

    /// Every row of the buffer, top to bottom: exactly `height` slices of
    /// `row_len` bytes each. Each call enumerates the rows afresh.
    pub fn rows(&self) -> (r: Vec<&[u8]>)
        requires
            self.wf(),
        ensures
            r@.len() == self.spec_height(),
            forall|i: int| 0 <= i < r@.len() ==> (#[trigger] r@[i])@ == self.spec_row(i),
    {
        let total = self.pixels.len();
        let rl = self.row_len();
        let mut out: Vec<&[u8]> = Vec::new();
        let mut row: u32 = 0;
        while row < self.height
            invariant
                self.wf(),
                total == self@.len(),
                rl == self.spec_row_len(),
                row <= self.spec_height(),
                out@.len() == row,
                forall|i: int| 0 <= i < row ==> (#[trigger] out@[i])@ == self.spec_row(i),
            decreases self.spec_height() - row,
        {
            proof {
                lemma_row_window(
                    self.spec_width() as int,
                    self.spec_height() as int,
                    self.spec_format().spec_bytes_per_pixel() as int,
                    row as int,
                    total as int,
                );
            }
            let start = row as usize * rl;
            let end = start + rl;
            out.push(slice_subrange(self.pixels.as_slice(), start, end));
            row = row + 1;
        }
        out
    }

    /// Overwrites row `row` with the given bytes. Succeeds exactly when the
    /// row index is in range and the data is exactly one row long; on
    /// success only that row's window of the pixel memory changes, and on
    /// failure nothing changes.
    pub fn set_row(&mut self, row: u32, data: &[u8]) -> (ok: bool)
        requires
            old(self).wf(),
        ensures
            ok <==> (row < old(self).spec_height() && data@.len() == old(self).spec_row_len()),
            ok ==> final(self)@ == old(self).spec_with_row(row as int, data@),
            !ok ==> final(self)@ == old(self)@,
            final(self).wf(),
            final(self).spec_width() == old(self).spec_width(),
            final(self).spec_height() == old(self).spec_height(),
            final(self).spec_format() == old(self).spec_format(),
            final(self).spec_target() == old(self).spec_target(),
    {
        if row >= self.height {
            return false;
        }
        let total = self.pixels.len();
        let rl = self.row_len();
        if data.len() != rl {
            return false;
        }
        proof {
            lemma_row_window(
                self.spec_width() as int,
                self.spec_height() as int,
                self.spec_format().spec_bytes_per_pixel() as int,
                row as int,
                total as int,
            );
        }
        let start = row as usize * rl;
        let ghost orig = self@;
        let ghost ow = self.spec_width();
        let ghost oh = self.spec_height();
        let ghost of = self.spec_format();
        let ghost ot = self.spec_target();
        let mut k: usize = 0;
        while k < rl
            invariant
                rl == self.spec_row_len(),
                data@.len() == rl,
                k <= rl,
                start + rl <= orig.len(),
                orig.len() <= usize::MAX,
                self@.len() == orig.len(),
                self.spec_width() == ow,
                self.spec_height() == oh,
                self.spec_format() == of,
                self.spec_target() == ot,
                self@ == orig.subrange(0, start as int) + data@.subrange(0, k as int)
                    + orig.subrange(start + k, orig.len() as int),
            decreases rl - k,
        {
            let b = data[k];
            self.pixels[start + k] = b;
            k = k + 1;
            proof {
                assert(self@ =~= orig.subrange(0, start as int) + data@.subrange(0, k as int)
                    + orig.subrange(start + k, orig.len() as int));
            }
        }
        proof {
            assert(data@.subrange(0, rl as int) =~= data@);
            assert(orig.subrange(start + rl, orig.len() as int) =~= orig.subrange(
                (row + 1) * (rl as int),
                orig.len() as int,
            ));
            assert(final(self)@ == self@);
        }
        true
    }

    /// Overwrites the whole buffer row by row: row `i` receives `rows[i]`.
    /// Succeeds exactly when the pattern has one entry per row and every
    /// entry is exactly one row long; each written row then reads back as
    /// its pattern entry, and on failure nothing changes.
    pub fn set_rows(&mut self, rows: &Vec<Vec<u8>>) -> (ok: bool)
        requires
            old(self).wf(),
        ensures
            ok <==> (rows@.len() == old(self).spec_height() && forall|i: int|
                0 <= i < rows@.len() ==> (#[trigger] rows@[i])@.len() == old(
                    self,
                ).spec_row_len()),
            ok ==> forall|i: int|
                0 <= i < rows@.len() ==> final(self).spec_row(i) == (#[trigger] rows@[i])@,
            !ok ==> final(self)@ == old(self)@,
            final(self)@.len() == old(self)@.len(),
            final(self).wf(),
            final(self).spec_width() == old(self).spec_width(),
            final(self).spec_height() == old(self).spec_height(),
            final(self).spec_format() == old(self).spec_format(),
            final(self).spec_target() == old(self).spec_target(),
    {
        let rl = self.row_len();
        let h = self.height;
        if rows.len() != h as usize {
            return false;
        }
        let mut all_match = true;
        let mut i: usize = 0;
        while i < rows.len()
            invariant
                i <= rows@.len(),
                all_match <==> (forall|j: int| 0 <= j < i ==> (#[trigger] rows@[j])@.len() == rl),
            decreases rows@.len() - i,
        {
            if rows[i].len() != rl {
                all_match = false;
            }
            i = i + 1;
        }
        if !all_match {
            return false;
        }
        let ghost orig = self@;
        let ghost oh = self.spec_height();
        let ghost ow = self.spec_width();
        let ghost of = self.spec_format();
        let ghost ot = self.spec_target();
        let mut row: usize = 0;
        while row < rows.len()
            invariant
                self.wf(),
                self.spec_width() == ow,
                self.spec_height() == oh,
                self.spec_format() == of,
                self.spec_target() == ot,
                rl == self.spec_row_len(),
                rows@.len() == oh,
                row <= rows@.len(),
                forall|j: int| 0 <= j < rows@.len() ==> (#[trigger] rows@[j])@.len() == rl,
                self@.len() == orig.len(),
                forall|j: int| 0 <= j < row ==> self.spec_row(j) == (#[trigger] rows@[j])@,
                forall|j: int|
                    row <= j < oh ==> self.spec_row(j) == spec_row_of(orig, rl as int, j),
            decreases rows@.len() - row,
        {
            proof {
                crate::laws::lemma_buffer_extent(*self);
            }
            let ghost prev = self@;
            let wrote = self.set_row(row as u32, rows[row].as_slice());
            proof {
                assert(wrote);
                crate::laws::lemma_splice_row_reads_back(
                    prev,
                    rl as int,
                    oh as int,
                    row as int,
                    rows@[row as int]@,
                );
            }
            row = row + 1;
        }
        true
    }
}

/// Bounds of one row's byte window: in a buffer of `h` rows of `w * b`
/// bytes each, row `i`'s window `[i * (w * b), (i + 1) * (w * b))` lies
/// inside the `len == w * h * b` bytes of pixel memory.
pub proof fn lemma_row_window(w: int, h: int, b: int, i: int, len: int)
    requires
        0 <= w,
        0 <= b,
        0 <= i < h,
        len == w * h * b,
    ensures
        0 <= i * (w * b),
        i * (w * b) + (w * b) <= len,
        (i + 1) * (w * b) == i * (w * b) + (w * b),
{
    assert(0 <= i * (w * b) && i * (w * b) + (w * b) <= w * h * b && (i + 1) * (w * b) == i * (w
        * b) + (w * b)) by (nonlinear_arith)
        requires
            0 <= w,
            0 <= b,
            0 <= i < h,
    ;
}

} // verus!
