//! Laws the buffer's row access obeys, stated over the spec model the
//! method contracts use: the extent of the pixel memory, what writing one
//! row leaves behind, and the round trip of writing every row and reading
//! them all back.

use vstd::prelude::*;

use crate::buffer::{lemma_row_window, spec_row_of, spec_splice_row, spec_write_rows, PixelBuffer};

verus! {

/// The pixel memory is exactly `height` rows of `row_len` bytes, and its
/// total extent is `width * height * bytes_per_pixel`.
pub proof fn lemma_buffer_extent(buf: PixelBuffer)
    requires
        buf.wf(),
    ensures
        buf@.len() == buf.spec_height() * buf.spec_row_len(),
        buf@.len() == buf.spec_width() * buf.spec_height()
            * buf.spec_format().spec_bytes_per_pixel(),
{
    let w = buf.spec_width() as int;
    let h = buf.spec_height() as int;
    let b = buf.spec_format().spec_bytes_per_pixel() as int;
    assert(w * h * b == h * (w * b)) by (nonlinear_arith);
}

/// Replacing row `i`'s window leaves a region of the same length in which
/// row `i` reads back as exactly the written bytes and every other row is
/// unchanged.
pub proof fn lemma_splice_row_reads_back(s: Seq<u8>, rl: int, h: int, i: int, data: Seq<u8>)
    requires
        0 <= rl,
        0 <= i < h,
        s.len() == h * rl,
        data.len() == rl,
    ensures
        spec_splice_row(s, rl, i, data).len() == s.len(),
        spec_row_of(spec_splice_row(s, rl, i, data), rl, i) == data,
        forall|j: int|
            0 <= j < h && j != i ==> spec_row_of(spec_splice_row(s, rl, i, data), rl, j)
                == spec_row_of(s, rl, j),
{
    let t = spec_splice_row(s, rl, i, data);
    lemma_row_window(1, h, rl, i, s.len() as int);
    assert(spec_row_of(t, rl, i) =~= data);
    assert forall|j: int| 0 <= j < h && j != i implies spec_row_of(t, rl, j) == spec_row_of(
        s,
        rl,
        j,
    ) by {
        lemma_row_window(1, h, rl, j, s.len() as int);
        if j < i {
            assert((j + 1) * rl <= i * rl) by (nonlinear_arith)
                requires
                    j + 1 <= i,
                    0 <= rl,
            ;
        } else {
            assert((i + 1) * rl <= j * rl) by (nonlinear_arith)
                requires
                    i + 1 <= j,
                    0 <= rl,
            ;
        }
        assert(spec_row_of(t, rl, j) =~= spec_row_of(s, rl, j));
    }
}

/// Writing the first `pattern.len()` rows leaves the region's length
/// unchanged, leaves every higher row as it was, and leaves each written
/// row holding exactly its pattern bytes.
pub proof fn lemma_write_rows(s: Seq<u8>, rl: int, h: int, pattern: Seq<Seq<u8>>)
    requires
        0 <= rl,
        pattern.len() <= h,
        s.len() == h * rl,
        forall|i: int| 0 <= i < pattern.len() ==> (#[trigger] pattern[i]).len() == rl,
    ensures
        spec_write_rows(s, rl, pattern).len() == s.len(),
        forall|i: int|
            0 <= i < pattern.len() ==> spec_row_of(spec_write_rows(s, rl, pattern), rl, i)
                == pattern[i],
        forall|i: int|
            pattern.len() <= i < h ==> spec_row_of(spec_write_rows(s, rl, pattern), rl, i)
                == spec_row_of(s, rl, i),
    decreases pattern.len(),
{
    if pattern.len() != 0 {
        let prev = spec_write_rows(s, rl, pattern.drop_last());
        let n = pattern.len() - 1;
        lemma_write_rows(s, rl, h, pattern.drop_last());
        lemma_splice_row_reads_back(prev, rl, h, n, pattern.last());
        let t = spec_write_rows(s, rl, pattern);
        assert(t == spec_splice_row(prev, rl, n, pattern.last()));
        assert forall|i: int| 0 <= i < pattern.len() implies spec_row_of(t, rl, i)
            == pattern[i] by {
            if i < n {
                assert(spec_row_of(prev, rl, i) == pattern.drop_last()[i]);
                assert(pattern.drop_last()[i] == pattern[i]);
            } else {
                assert(i == n);
                assert(pattern.last() == pattern[n]);
            }
        }
    }
}

/// The round trip: writing a full pattern of `height` rows into a
/// well-formed buffer's pixel memory and reading every row back
/// reproduces exactly that pattern.
pub proof fn lemma_rows_round_trip(buf: PixelBuffer, pattern: Seq<Seq<u8>>)
    requires
        buf.wf(),
        pattern.len() == buf.spec_height(),
        forall|i: int| 0 <= i < pattern.len() ==> (#[trigger] pattern[i]).len()
            == buf.spec_row_len(),
    ensures
        spec_write_rows(buf@, buf.spec_row_len(), pattern).len() == buf@.len(),
        forall|i: int|
            0 <= i < buf.spec_height() ==> spec_row_of(
                spec_write_rows(buf@, buf.spec_row_len(), pattern),
                buf.spec_row_len(),
                i,
            ) == pattern[i],
{
    lemma_buffer_extent(buf);
    lemma_write_rows(buf@, buf.spec_row_len(), buf.spec_height() as int, pattern);
}

} // verus!
