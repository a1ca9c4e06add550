//! The side-scrolling grayscale spectrogram: each analysed window of audio
//! becomes one column of gray levels, painted into a scratch image whose
//! columns are rotated so that the newest column is shown at the right edge.

use vstd::prelude::*;
use vstd::arithmetic::mul::{lemma_mul_inequality, lemma_mul_strict_inequality};
use vstd::arithmetic::div_mod::{
    lemma_div_is_ordered, lemma_fundamental_div_mod, lemma_fundamental_div_mod_converse,
    lemma_mod_pos_bound, lemma_small_mod,
};

verus! {

/// Number of audio samples in one analysis window.
pub const WINDOW_SIZE: usize = 256;

/// Number of frequency bins spread over the height of a column; the
/// spectrum of a window holds one more bin, the Nyquist frequency.
pub const NUM_BINS: u32 = 128;

/// The spectrum bin shown at `row` of a column `height` rows high: the
/// top row shows the highest frequency.
pub open spec fn bin_of_row(row: int, height: int) -> int {
    NUM_BINS - row * NUM_BINS / height
}

/// Maps a row of the picture to the spectrum bin it shows.
pub fn row_to_bin(row: u32, height: u32) -> (bin: usize)
    requires
        height > 0,
        row * NUM_BINS <= u32::MAX,
        row * NUM_BINS / (height as int) <= NUM_BINS,
    ensures
        bin == bin_of_row(row as int, height as int),
{
    let bin_count: u32 = NUM_BINS;
    (bin_count - (row * bin_count / height)) as usize
}

/// Every row of a picture shows one of the bins `1..=NUM_BINS`.
pub proof fn lemma_row_bin_in_range(row: int, height: int)
    requires
        0 <= row < height,
    ensures
        1 <= bin_of_row(row, height) <= NUM_BINS,
{
    assert(row * NUM_BINS < height * NUM_BINS) by (nonlinear_arith)
        requires
            0 <= row < height,
    ;
    assert(0 <= row * NUM_BINS) by (nonlinear_arith)
        requires
            0 <= row,
    ;
    assert(row * NUM_BINS / height < NUM_BINS) by (nonlinear_arith)
        requires
            0 <= row * NUM_BINS < height * NUM_BINS,
            0 < height,
    ;
    lemma_div_is_ordered(0, row * NUM_BINS, height);
}

/// The plane after rows `0..rows` of a column have been painted, the pixel
/// of row `r` lying at `r * stride + column_offset`.
pub open spec fn paint_rows(
    plane: Seq<u8>,
    levels: Seq<u8>,
    stride: int,
    column_offset: int,
    height: int,
    rows: nat,
) -> Seq<u8>
    decreases rows,
{
    if rows == 0 {
        plane
    } else {
        let r = rows - 1;
        paint_rows(plane, levels, stride, column_offset, height, r as nat).update(
            r * stride + column_offset,
            levels[bin_of_row(r, height)],
        )
    }
}

/// Paints one column of the picture: the pixel of each row `row < height`,
/// at `row * stride + column * pstride`, gets the gray level of the bin
/// that the row shows. `levels` holds one gray level per spectrum bin.
pub fn draw_column(
    levels: &[u8],
    stride: u32,
    pstride: u32,
    height: u32,
    column: u32,
    plane: &mut [u8],
)
    requires
        column * pstride <= u32::MAX,
        height > 0 ==> (height - 1) * NUM_BINS <= u32::MAX,
        height > 0 ==> (height - 1) * stride <= u32::MAX,
        height > 0 ==> (height - 1) * stride + column * pstride < old(plane)@.len(),
        height > 0 ==> levels@.len() > NUM_BINS,
    ensures
        final(plane)@ == paint_rows(
            old(plane)@,
            levels@,
            stride as int,
            column * pstride,
            height as int,
            height as nat,
        ),
{
    let column_offset = (column * pstride) as usize;
    let mut row: u32 = 0;
    while row < height
        invariant
            row <= height,
            column_offset == column * pstride,
            plane@.len() == old(plane)@.len(),
            height > 0 ==> (height - 1) * NUM_BINS <= u32::MAX,
            height > 0 ==> (height - 1) * stride <= u32::MAX,
            height > 0 ==> (height - 1) * stride + column * pstride < old(plane)@.len(),
            height > 0 ==> levels@.len() > NUM_BINS,
            plane@ == paint_rows(
                old(plane)@,
                levels@,
                stride as int,
                column_offset as int,
                height as int,
                row as nat,
            ),
        decreases height - row,
    {
        proof {
            lemma_mul_inequality(row as int, height - 1, NUM_BINS as int);
            lemma_mul_inequality(row as int, height - 1, stride as int);
            lemma_row_bin_in_range(row as int, height as int);
            assert(row * stride <= (height - 1) * stride);
        }
        let bin = row_to_bin(row, height);
        let row_offset = (row * stride) as usize;
        let plane_len = plane.len();
        assert(row_offset + column_offset < plane_len);
        plane[row_offset + column_offset] = levels[bin];
        row = row + 1;
    }
}


/// Painting a column keeps the plane's length.
pub proof fn lemma_paint_rows_len(
    plane: Seq<u8>,
    levels: Seq<u8>,
    stride: int,
    column_offset: int,
    height: int,
    rows: nat,
)
    requires
        stride >= 0,
        column_offset >= 0,
        rows > 0 ==> (rows - 1) * stride + column_offset < plane.len(),
    ensures
        paint_rows(plane, levels, stride, column_offset, height, rows).len() == plane.len(),
    decreases rows,
{
    if rows > 0 {
        let last = rows - 1;
        if last > 0 {
            lemma_mul_inequality(last - 1, last, stride);
        }
        assert(0 <= last * stride) by (nonlinear_arith)
            requires
                0 <= last,
                0 <= stride,
        ;
        lemma_paint_rows_len(plane, levels, stride, column_offset, height, last as nat);
    }
}

/// When the rows lie at distinct offsets (`stride > 0`), row `r` of a painted
/// column shows the gray level of the bin `bin_of_row(r, height)`, and every
/// pixel that is no row's pixel keeps its value.
pub proof fn lemma_column_pixels(
    plane: Seq<u8>,
    levels: Seq<u8>,
    stride: int,
    column_offset: int,
    height: int,
    rows: nat,
)
    requires
        stride > 0,
        column_offset >= 0,
        rows > 0 ==> (rows - 1) * stride + column_offset < plane.len(),
    ensures
        forall|r: int|
            0 <= r < rows ==> #[trigger] paint_rows(
                plane,
                levels,
                stride,
                column_offset,
                height,
                rows,
            )[r * stride + column_offset] == levels[bin_of_row(r, height)],
        forall|i: int|
            0 <= i < plane.len() && (forall|r: int| 0 <= r < rows ==> i != #[trigger] (r * stride)
                + column_offset) ==> paint_rows(plane, levels, stride, column_offset, height, rows)[i]
                == plane[i],
    decreases rows,
{
    if rows > 0 {
        let last = rows - 1;
        let prev = paint_rows(plane, levels, stride, column_offset, height, last as nat);
        if last > 0 {
            lemma_mul_inequality(last - 1, last, stride);
        }
        lemma_column_pixels(plane, levels, stride, column_offset, height, last as nat);
        lemma_paint_rows_len(plane, levels, stride, column_offset, height, last as nat);
        assert forall|r: int| 0 <= r < rows implies #[trigger] paint_rows(
            plane,
            levels,
            stride,
            column_offset,
            height,
            rows,
        )[r * stride + column_offset] == levels[bin_of_row(r, height)] by {
            if r < last {
                lemma_mul_strict_inequality(r, last, stride);
                lemma_mul_inequality(r, last, stride);
                assert(0 <= r * stride) by (nonlinear_arith)
                    requires
                        0 <= r,
                        0 < stride,
                ;
            }
        }
        assert forall|i: int|
            0 <= i < plane.len() && (forall|r: int| 0 <= r < rows ==> i != #[trigger] (r * stride)
                + column_offset) implies paint_rows(
            plane,
            levels,
            stride,
            column_offset,
            height,
            rows,
        )[i] == plane[i] by {
            assert(i != last * stride + column_offset);
            assert forall|r: int| 0 <= r < last implies i != #[trigger] (r * stride) + column_offset by {
                assert(0 <= r < rows);
            }
        }
    }
}


/// `out` with `len` bytes, starting at `dst`, replaced by those of `src`
/// starting at `from`.
pub open spec fn copy_block(out: Seq<u8>, dst: int, src: Seq<u8>, from: int, len: int) -> Seq<u8> {
    Seq::new(out.len(), |i: int| if dst <= i < dst + len { src[from + (i - dst)] } else { out[i] })
}

/// `out` after rows `0..rows` have each had `len` bytes copied from `src`:
/// row `r` copies from `r * stride + src_offset` to `r * stride + dst_offset`.
pub open spec fn copy_rows(
    out: Seq<u8>,
    src: Seq<u8>,
    stride: int,
    dst_offset: int,
    src_offset: int,
    len: int,
    rows: nat,
) -> Seq<u8>
    decreases rows,
{
    if rows == 0 {
        out
    } else {
        let r = rows - 1;
        copy_block(
            copy_rows(out, src, stride, dst_offset, src_offset, len, r as nat),
            r * stride + dst_offset,
            src,
            r * stride + src_offset,
            len,
        )
    }
}

/// The output picture: first, in each row, the `left` bytes after the
/// first `pivot` bytes of the scratch row move to the row's start; then the
/// first `pivot` bytes of the scratch row go after them.
pub open spec fn scroll_copy(
    out: Seq<u8>,
    data: Seq<u8>,
    stride: int,
    pivot: int,
    left: int,
    height: nat,
) -> Seq<u8> {
    copy_rows(copy_rows(out, data, stride, 0, pivot, left, height), data, stride, left, 0, pivot, height)
}

/// The number of bytes of a scratch row shown before the wrap point: the
/// columns up to and including the current one (`pivot`) are shown last.
pub open spec fn pivot_of(column: int, pstride: int) -> int {
    (column + 1) * pstride
}

/// The number of bytes of a scratch row shown first.
pub open spec fn left_size_of(width: int, column: int, pstride: int) -> int {
    (width - pivot_of(column, pstride)) * pstride
}

/// Byte `i` of `out` after `copy_rows`, when each row's block lies inside its
/// `stride` bytes: row `i / stride` copied it if its offset in the row,
/// `i % stride`, falls inside the block.
pub open spec fn copied_byte(
    out: Seq<u8>,
    src: Seq<u8>,
    stride: int,
    dst_offset: int,
    src_offset: int,
    len: int,
    rows: int,
    i: int,
) -> u8 {
    let q = i / stride;
    let m = i % stride;
    if q < rows && dst_offset <= m < dst_offset + len {
        src[q * stride + src_offset + (m - dst_offset)]
    } else {
        out[i]
    }
}

/// Where each row's block lies inside its `stride` bytes, copying rows
/// changes exactly the bytes of the blocks.
pub proof fn lemma_copy_rows_bytes(
    out: Seq<u8>,
    src: Seq<u8>,
    stride: int,
    dst_offset: int,
    src_offset: int,
    len: int,
    rows: nat,
)
    requires
        stride > 0,
        0 <= dst_offset,
        0 <= src_offset,
        0 <= len,
        dst_offset + len <= stride,
        rows > 0 ==> (rows - 1) * stride + dst_offset + len <= out.len(),
    ensures
        copy_rows(out, src, stride, dst_offset, src_offset, len, rows).len() == out.len(),
        forall|i: int|
            0 <= i < out.len() ==> #[trigger] copy_rows(
                out,
                src,
                stride,
                dst_offset,
                src_offset,
                len,
                rows,
            )[i] == copied_byte(out, src, stride, dst_offset, src_offset, len, rows as int, i),
    decreases rows,
{
    if rows > 0 {
        let last = (rows - 1) as int;
        if last > 0 {
            lemma_mul_inequality(last - 1, last, stride);
        }
        lemma_copy_rows_bytes(out, src, stride, dst_offset, src_offset, len, last as nat);
        let prev = copy_rows(out, src, stride, dst_offset, src_offset, len, last as nat);
        assert forall|i: int| 0 <= i < out.len() implies #[trigger] copy_rows(
            out,
            src,
            stride,
            dst_offset,
            src_offset,
            len,
            rows,
        )[i] == copied_byte(out, src, stride, dst_offset, src_offset, len, rows as int, i) by {
            let q = i / stride;
            let m = i % stride;
            lemma_fundamental_div_mod(i, stride);
            lemma_mod_pos_bound(i, stride);
            assert(stride * q == q * stride) by (nonlinear_arith);
            if last * stride + dst_offset <= i < last * stride + dst_offset + len {
                lemma_fundamental_div_mod_converse(i, stride, last, i - last * stride);
            } else {
                if q == last && dst_offset <= m < dst_offset + len {
                    assert(false);
                }
            }
        }
    }
}

/// Byte `i` of the output picture: row `i / stride` shows, at offset
/// `m = i % stride < pivot + left`, the scratch byte at offset
/// `(m + pivot) % (pivot + left)` of the same row.
pub open spec fn rotated_byte(
    out: Seq<u8>,
    data: Seq<u8>,
    stride: int,
    pivot: int,
    left: int,
    height: int,
    i: int,
) -> u8 {
    let q = i / stride;
    let m = i % stride;
    let span = pivot + left;
    if q < height && m < span {
        data[q * stride + (m + pivot) % span]
    } else {
        out[i]
    }
}

/// Each row of the output is the scratch row rotated left by `pivot` bytes:
/// the bytes after the current column come first and the current column
/// ends up at the right edge. Bytes outside the rows are left alone.
pub proof fn lemma_scroll_copy_rotates(
    out: Seq<u8>,
    data: Seq<u8>,
    stride: int,
    pivot: int,
    left: int,
    height: nat,
)
    requires
        0 <= pivot,
        0 <= left,
        0 < stride,
        pivot + left <= stride,
        height > 0 ==> (height - 1) * stride + pivot + left <= out.len(),
    ensures
        scroll_copy(out, data, stride, pivot, left, height).len() == out.len(),
        forall|i: int|
            0 <= i < out.len() ==> #[trigger] scroll_copy(out, data, stride, pivot, left, height)[i]
                == rotated_byte(out, data, stride, pivot, left, height as int, i),
{
    let middle = copy_rows(out, data, stride, 0, pivot, left, height);
    lemma_copy_rows_bytes(out, data, stride, 0, pivot, left, height);
    lemma_copy_rows_bytes(middle, data, stride, left, 0, pivot, height);
    assert forall|i: int| 0 <= i < out.len() implies #[trigger] scroll_copy(
        out,
        data,
        stride,
        pivot,
        left,
        height,
    )[i] == rotated_byte(out, data, stride, pivot, left, height as int, i) by {
        let m = i % stride;
        let span = pivot + left;
        lemma_mod_pos_bound(i, stride);
        assert(middle[i] == copied_byte(out, data, stride, 0, pivot, left, height as int, i));
        if m < left {
            lemma_small_mod((m + pivot) as nat, span as nat);
        } else if m < span {
            lemma_fundamental_div_mod_converse(m + pivot, span, 1, m - left);
        }
    }
}

/// The column painted after `column` in a picture `width` columns wide.
pub open spec fn next_column(column: nat, width: nat) -> nat {
    if column + 1 >= width {
        0
    } else {
        (column + 1) as nat
    }
}

/// `column` moved on `k` times.
pub open spec fn advance_column(column: nat, width: nat, k: nat) -> nat
    decreases k,
{
    if k == 0 {
        column
    } else {
        next_column(advance_column(column, width, (k - 1) as nat), width)
    }
}

/// The painted column goes round the picture: after `k` steps from a
/// column inside it, it is at `(column + k) % width`, so after `width`
/// steps it is back where it started.
pub proof fn lemma_column_cycles(column: nat, width: nat, k: nat)
    requires
        column < width,
    ensures
        advance_column(column, width, k) == ((column + k) as int) % (width as int),
        advance_column(column, width, width) == column,
{
    lemma_column_cycles_to(column, width, k);
    lemma_column_cycles_to(column, width, width);
    lemma_fundamental_div_mod_converse((column + width) as int, width as int, 1, column as int);
}

proof fn lemma_column_cycles_to(column: nat, width: nat, k: nat)
    requires
        column < width,
    ensures
        advance_column(column, width, k) == ((column + k) as int) % (width as int),
    decreases k,
{
    let w = width as int;
    if k > 0 {
        lemma_column_cycles_to(column, width, (k - 1) as nat);
        let before = column + k - 1;
        let prev = before % w;
        lemma_mod_pos_bound(before, w);
        lemma_fundamental_div_mod(before, w);
        let q = before / w;
        assert(w * q == q * w) by (nonlinear_arith);
        assert((q + 1) * w == q * w + w) by (nonlinear_arith);
        if prev + 1 >= w {
            lemma_fundamental_div_mod_converse(before + 1, w, q + 1, 0);
        } else {
            lemma_fundamental_div_mod_converse(before + 1, w, q, prev + 1);
        }
    } else {
        lemma_small_mod(column, width);
    }
}

/// What a scratch picture is, as a value.
pub struct ScratchpadView {
    pub data: Seq<u8>,
    pub column: nat,
    pub width: nat,
    pub height: nat,
}

/// The scratch picture of the spectrogram, into which one column is painted
/// per analysed window; `current_column` cycles through `0..width`.
pub struct Scratchpad {
    data: Vec<u8>,
    current_column: usize,
    width: usize,
    height: usize,
}

impl View for Scratchpad {
    type V = ScratchpadView;

    closed spec fn view(&self) -> ScratchpadView {
        ScratchpadView {
            data: self.data@,
            column: self.current_column as nat,
            width: self.width as nat,
            height: self.height as nat,
        }
    }
}

impl Scratchpad {
    /// The column always lies inside the picture, but for a picture of width 0.
    #[verifier::type_invariant]
    spec fn column_in_picture(&self) -> bool {
        self.current_column < self.width || self.current_column == 0
    }

    /// A black picture of `buffer_size` bytes, painting first at column 0.
    pub fn new(width: usize, height: usize, buffer_size: usize) -> (s: Self)
        ensures
            s@.data == Seq::new(buffer_size as nat, |i: int| 0u8),
            s@.column == 0,
            s@.width == width,
            s@.height == height,
    {
        let mut data: Vec<u8> = Vec::with_capacity(buffer_size);
        let mut i: usize = 0;
        while i < buffer_size
            invariant
                i <= buffer_size,
                data@ == Seq::new(i as nat, |k: int| 0u8),
            decreases buffer_size - i,
        {
            data.push(0u8);
            i = i + 1;
        }
        Scratchpad { data, current_column: 0, width, height }
    }

    /// The column painted next; it lies inside the picture, but for a
    /// picture of width 0.
    pub fn current_column(&self) -> (c: usize)
        ensures
            c == self@.column,
            c < self@.width || c == 0,
    {
        proof {
            use_type_invariant(self);
        }
        self.current_column
    }

    /// The width of the picture, in columns.
    pub fn width(&self) -> (w: usize)
        ensures
            w == self@.width,
    {
        self.width
    }

    /// The height of the picture, in rows.
    pub fn height(&self) -> (h: usize)
        ensures
            h == self@.height,
    {
        self.height
    }

    /// The bytes of the picture.
    pub fn data(&self) -> (d: &[u8])
        ensures
            d@ == self@.data,
    {
        self.data.as_slice()
    }

    /// Moves on to the next column, wrapping around to 0 after the last one.
    pub fn next(&mut self)
        ensures
            final(self)@.column == next_column(old(self)@.column, old(self)@.width),
            final(self)@.data == old(self)@.data,
            final(self)@.width == old(self)@.width,
            final(self)@.height == old(self)@.height,
    {
        proof {
            use_type_invariant(&*self);
        }
        if self.current_column + 1 >= self.width {
            self.current_column = 0;
        } else {
            self.current_column = self.current_column + 1;
        }
    }

    /// Copies the picture into `outbuf`, rotated so that the current
    /// column comes last: for each row, the part after the current column
    /// is written first, then the part up to and including it.
    pub fn copy_into(&self, stride: usize, pstride: usize, outbuf: &mut [u8])
        requires
            pivot_of(self@.column as int, pstride as int) <= self@.width,
            left_size_of(self@.width as int, self@.column as int, pstride as int) <= usize::MAX,
            self@.height > 0 ==> (self@.height - 1) * stride + pivot_of(self@.column as int, pstride as int)
                + left_size_of(self@.width as int, self@.column as int, pstride as int)
                <= self@.data.len(),
            self@.height > 0 ==> (self@.height - 1) * stride + pivot_of(self@.column as int, pstride as int)
                + left_size_of(self@.width as int, self@.column as int, pstride as int)
                <= old(outbuf)@.len(),
        ensures
            final(outbuf)@ == scroll_copy(
                old(outbuf)@,
                self@.data,
                stride as int,
                pivot_of(self@.column as int, pstride as int),
                left_size_of(self@.width as int, self@.column as int, pstride as int),
                self@.height,
            ),
    {
        let ghost start = outbuf@;
        let ghost data = self.data@;
        let height = self.height;
        let data_len = self.data.len();
        let out_len = outbuf.len();
        proof {
            use_type_invariant(self);
            assert(0 <= (self.current_column + 1) * pstride) by (nonlinear_arith)
                requires
                    0 <= self.current_column,
                    0 <= pstride,
            ;
        }
        let pivot = (self.current_column + 1) * pstride;
        let left_size = (self.width - pivot) * pstride;
        let mut row: usize = 0;
        while row < height
            invariant
                row <= height,
                height == self@.height,
                data == self@.data,
                data_len == data.len(),
                out_len == start.len(),
                outbuf@.len() == start.len(),
                height > 0 ==> (height - 1) * stride + pivot + left_size <= data_len,
                height > 0 ==> (height - 1) * stride + pivot + left_size <= out_len,
                outbuf@ == copy_rows(start, data, stride as int, 0, pivot as int, left_size as int, row as nat),
            decreases height - row,
        {
            proof {
                lemma_mul_inequality(row as int, height - 1, stride as int);
            }
            let row_offset = row * stride;
            let ghost before = outbuf@;
            let mut j: usize = 0;
            while j < left_size
                invariant
                    j <= left_size,
                    row < height,
                    row_offset == row * stride,
                    row_offset + pivot + left_size <= data_len,
                    row_offset + pivot + left_size <= out_len,
                    data_len == data.len(),
                    data == self@.data,
                    out_len == start.len(),
                    outbuf@.len() == start.len(),
                    before.len() == start.len(),
                    outbuf@ == copy_block(before, row_offset as int, data, row_offset + pivot, j as int),
                decreases left_size - j,
            {
                outbuf[row_offset + j] = self.data[row_offset + pivot + j];
                proof {
                    assert(outbuf@ =~= copy_block(before, row_offset as int, data, row_offset + pivot, j + 1));
                }
                j = j + 1;
            }
            proof {
                assert(outbuf@ =~= copy_rows(start, data, stride as int, 0, pivot as int, left_size as int, (row + 1) as nat));
            }
            row = row + 1;
        }
        let ghost middle = outbuf@;
        let mut row: usize = 0;
        while row < height
            invariant
                row <= height,
                height == self@.height,
                data == self@.data,
                data_len == data.len(),
                out_len == start.len(),
                outbuf@.len() == start.len(),
                middle.len() == start.len(),
                height > 0 ==> (height - 1) * stride + pivot + left_size <= data_len,
                height > 0 ==> (height - 1) * stride + pivot + left_size <= out_len,
                outbuf@ == copy_rows(middle, data, stride as int, left_size as int, 0, pivot as int, row as nat),
            decreases height - row,
        {
            proof {
                lemma_mul_inequality(row as int, height - 1, stride as int);
            }
            let row_offset = row * stride;
            let ghost before = outbuf@;
            let mut j: usize = 0;
            while j < pivot
                invariant
                    j <= pivot,
                    row < height,
                    row_offset == row * stride,
                    row_offset + pivot + left_size <= data_len,
                    row_offset + pivot + left_size <= out_len,
                    data_len == data.len(),
                    data == self@.data,
                    out_len == start.len(),
                    outbuf@.len() == start.len(),
                    before.len() == start.len(),
                    outbuf@ == copy_block(before, row_offset + left_size, data, row_offset as int, j as int),
                decreases pivot - j,
            {
                outbuf[row_offset + left_size + j] = self.data[row_offset + j];
                proof {
                    assert(outbuf@ =~= copy_block(before, row_offset + left_size, data, row_offset as int, j + 1));
                }
                j = j + 1;
            }
            proof {
                assert(outbuf@ =~= copy_rows(middle, data, stride as int, left_size as int, 0, pivot as int, (row + 1) as nat));
            }
            row = row + 1;
        }
    }

    /// Paints one column of the scratch picture (see `draw_column`).
    pub fn paint_column(
        &mut self,
        levels: &[u8],
        stride: u32,
        pstride: u32,
        height: u32,
        column: u32,
    )
        requires
            column * pstride <= u32::MAX,
            height > 0 ==> (height - 1) * NUM_BINS <= u32::MAX,
            height > 0 ==> (height - 1) * stride <= u32::MAX,
            height > 0 ==> (height - 1) * stride + column * pstride < old(self)@.data.len(),
            height > 0 ==> levels@.len() > NUM_BINS,
        ensures
            final(self)@.data == paint_rows(
                old(self)@.data,
                levels@,
                stride as int,
                column * pstride,
                height as int,
                height as nat,
            ),
            final(self)@.column == old(self)@.column,
            final(self)@.width == old(self)@.width,
            final(self)@.height == old(self)@.height,
    {
        proof {
            use_type_invariant(&*self);
        }
        let mut data: Vec<u8> = Vec::new();
        std::mem::swap(&mut data, &mut self.data);
        draw_column(levels, stride, pstride, height, column, data.as_mut_slice());
        self.data = data;
    }
}

/// Why the spectrogram could not draw a frame.
#[derive(Debug, Clone, Copy, PartialEq, Eq, Structural)]
pub enum SpectrogramError {
    /// No video format was negotiated yet, so there is no scratch picture.
    ScratchpadNotReady,
}

impl SpectrogramError {
    /// The message of the error.
    pub fn message(&self) -> (m: &'static str)
        ensures
            m@ == "scratchpad not yet available"@,
    {
        "scratchpad not yet available"
    }
}

/// The geometry of the negotiated video frames.
#[derive(Debug, Clone, Copy, PartialEq, Eq, Structural)]
pub struct VideoLayout {
    pub width: usize,
    pub height: usize,
    /// The size of one frame, in bytes.
    pub size: usize,
}

/// The state of the spectrogram element: the scratch picture, once the
/// video format is known.
pub struct AudioSpectrogram {
    scratchpad: Option<Scratchpad>,
}

impl View for AudioSpectrogram {
    type V = Option<ScratchpadView>;

    closed spec fn view(&self) -> Option<ScratchpadView> {
        match self.scratchpad {
            Some(s) => Some(s@),
            None => None,
        }
    }
}

/// The column index that the spectrogram paints, as the frame's `u32`.
pub open spec fn column_u32(column: nat) -> u32 {
    column as u32
}

/// What drawing a spectrum does to the scratch picture: its column is
/// painted, then the column moves on.
pub open spec fn scratch_after_draw(
    s: ScratchpadView,
    levels: Seq<u8>,
    stride: u32,
    pstride: u32,
    frame_height: u32,
) -> ScratchpadView {
    ScratchpadView {
        data: paint_rows(
            s.data,
            levels,
            stride as int,
            column_u32(s.column) * pstride,
            frame_height as int,
            frame_height as nat,
        ),
        column: next_column(s.column, s.width),
        width: s.width,
        height: s.height,
    }
}

/// What a drawn frame shows: the painted scratch picture, rotated.
pub open spec fn frame_after_draw(
    out: Seq<u8>,
    s: ScratchpadView,
    levels: Seq<u8>,
    stride: u32,
    pstride: u32,
    frame_height: u32,
) -> Seq<u8> {
    scroll_copy(
        out,
        paint_rows(
            s.data,
            levels,
            stride as int,
            column_u32(s.column) * pstride,
            frame_height as int,
            frame_height as nat,
        ),
        stride as int,
        pivot_of(s.column as int, pstride as int),
        left_size_of(s.width as int, s.column as int, pstride as int),
        s.height,
    )
}

/// The inputs on which drawing into the scratch picture `s` and then
/// copying it into `out` stays inside both buffers.
pub open spec fn draw_fits(
    s: ScratchpadView,
    levels: Seq<u8>,
    stride: u32,
    pstride: u32,
    frame_height: u32,
    out_len: nat,
) -> bool {
    let column = column_u32(s.column);
    let pivot = pivot_of(s.column as int, pstride as int);
    let left = left_size_of(s.width as int, s.column as int, pstride as int);
    &&& column * pstride <= u32::MAX
    &&& frame_height > 0 ==> (frame_height - 1) * NUM_BINS <= u32::MAX
    &&& frame_height > 0 ==> (frame_height - 1) * stride <= u32::MAX
    &&& frame_height > 0 ==> (frame_height - 1) * stride + column * pstride < s.data.len()
    &&& frame_height > 0 ==> levels.len() > NUM_BINS
    &&& pivot <= s.width
    &&& left <= usize::MAX
    &&& s.height > 0 ==> (s.height - 1) * stride + pivot + left <= s.data.len()
    &&& s.height > 0 ==> (s.height - 1) * stride + pivot + left <= out_len
}

impl AudioSpectrogram {
    /// An element that has not negotiated a video format yet.
    pub fn new() -> (s: Self)
        ensures
            s@ == None::<ScratchpadView>,
    {
        AudioSpectrogram { scratchpad: None }
    }

    /// The scratch picture, once there is one.
    pub fn scratchpad(&self) -> (s: Option<&Scratchpad>)
        ensures
            match s {
                Some(p) => self@ == Some(p@),
                None => self@ == None::<ScratchpadView>,
            },
    {
        match &self.scratchpad {
            Some(p) => Some(p),
            None => None,
        }
    }

    /// Sets up for a newly negotiated video format: a black scratch
    /// picture of the frame's geometry replaces the previous one. Without
    /// a video format nothing changes.
    pub fn setup(&mut self, video: Option<VideoLayout>)
        ensures
            match video {
                Some(v) => final(self)@ == Some(
                    ScratchpadView {
                        data: Seq::new(v.size as nat, |i: int| 0u8),
                        column: 0,
                        width: v.width as nat,
                        height: v.height as nat,
                    },
                ),
                None => final(self)@ == old(self)@,
            },
    {
        if let Some(v) = video {
            let scratch = Scratchpad::new(v.width, v.height, v.size);
            self.scratchpad = Some(scratch);
        }
    }

    /// Draws one analysed window: paints its column of gray levels
    /// (`levels` holds one per spectrum bin) into the scratch picture,
    /// copies the picture, rotated, into the frame `out`, and moves on to
    /// the next column. Fails, changing nothing, before a video format is
    /// known.
    pub fn visualize(
        &mut self,
        levels: &[u8],
        stride: u32,
        pstride: u32,
        frame_height: u32,
        out: &mut [u8],
    ) -> (r: Result<(), SpectrogramError>)
        requires
            match old(self)@ {
                Some(s) => draw_fits(s, levels@, stride, pstride, frame_height, old(out)@.len()),
                None => true,
            },
        ensures
            match old(self)@ {
                Some(s) => {
                    &&& r == Ok::<(), SpectrogramError>(())
                    &&& final(self)@ == Some(
                        scratch_after_draw(s, levels@, stride, pstride, frame_height),
                    )
                    &&& final(out)@ == frame_after_draw(
                        old(out)@,
                        s,
                        levels@,
                        stride,
                        pstride,
                        frame_height,
                    )
                },
                None => {
                    &&& r == Err::<(), SpectrogramError>(SpectrogramError::ScratchpadNotReady)
                    &&& final(self)@ == old(self)@
                    &&& final(out)@ == old(out)@
                },
            },
    {
        match &mut self.scratchpad {
            None => Err(SpectrogramError::ScratchpadNotReady),
            Some(scratch) => {
                let column = #[verifier::truncate] (scratch.current_column() as u32);
                let ghost before = scratch@;
                scratch.paint_column(levels, stride, pstride, frame_height, column);
                proof {
                    lemma_paint_rows_len(
                        before.data,
                        levels@,
                        stride as int,
                        column * pstride,
                        frame_height as int,
                        frame_height as nat,
                    );
                }
                scratch.copy_into(stride as usize, pstride as usize, out);
                scratch.next();
                Ok(())
            },
        }
    }
}

/// Whether `a * b` stays below `2^96` for a `usize` and a `u32`.
proof fn lemma_wide_product(a: int, b: int)
    requires
        0 <= a <= usize::MAX,
        0 <= b <= u32::MAX,
    ensures
        0 <= a * b <= 0xffff_ffff_ffff_ffff_ffff_ffff,
{
    assert(0 <= a * b) by (nonlinear_arith)
        requires
            0 <= a,
            0 <= b,
    ;
    assert(a * b <= 0xffff_ffff_ffff_ffff * 0xffff_ffff) by (nonlinear_arith)
        requires
            0 <= a <= 0xffff_ffff_ffff_ffff,
            0 <= b <= 0xffff_ffff,
    ;
}

/// The product of two `u32` values fits in a `u64`.
proof fn lemma_narrow_product(a: int, b: int)
    requires
        0 <= a <= u32::MAX,
        0 <= b <= u32::MAX,
    ensures
        0 <= a * b <= u64::MAX,
{
    assert(0 <= a * b <= 0xffff_ffff * 0xffff_ffff) by (nonlinear_arith)
        requires
            0 <= a <= 0xffff_ffff,
            0 <= b <= 0xffff_ffff,
    ;
}

impl AudioSpectrogram {
    /// Whether drawing a window with these inputs into a frame of `out_len`
    /// bytes stays inside the scratch picture and the frame, the condition
    /// under which `visualize` may be called.
    pub fn fits(
        &self,
        levels: &[u8],
        stride: u32,
        pstride: u32,
        frame_height: u32,
        out_len: usize,
    ) -> (r: bool)
        ensures
            r == match self@ {
                Some(s) => draw_fits(s, levels@, stride, pstride, frame_height, out_len as nat),
                None => true,
            },
    {
        match &self.scratchpad {
            None => true,
            Some(scratch) => {
                let column_usize = scratch.current_column();
                let column = #[verifier::truncate] (column_usize as u32);
                let data_len = scratch.data().len() as u128;
                let width = scratch.width();
                let height = scratch.height();
                proof {
                    lemma_narrow_product(column as int, pstride as int);
                }
                let column_offset = (column as u64) * (pstride as u64);
                if column_offset > u32::MAX as u64 {
                    return false;
                }
                if frame_height > 0 {
                    let last_row = (frame_height - 1) as u64;
                    proof {
                        lemma_narrow_product(last_row as int, NUM_BINS as int);
                        lemma_narrow_product(last_row as int, stride as int);
                    }
                    if last_row * (NUM_BINS as u64) > u32::MAX as u64 {
                        return false;
                    }
                    let row_offset = last_row * (stride as u64);
                    if row_offset > u32::MAX as u64 {
                        return false;
                    }
                    if (row_offset as u128) + (column_offset as u128) >= data_len {
                        return false;
                    }
                    if levels.len() <= NUM_BINS as usize {
                        return false;
                    }
                }
                proof {
                    lemma_wide_product(column_usize as int + 1, pstride as int);
                }
                let pivot = ((column_usize as u128) + 1) * (pstride as u128);
                if pivot > width as u128 {
                    return false;
                }
                proof {
                    lemma_wide_product(width - pivot, pstride as int);
                }
                let left = ((width as u128) - pivot) * (pstride as u128);
                if left > usize::MAX as u128 {
                    return false;
                }
                if height > 0 {
                    proof {
                        lemma_wide_product(height - 1, stride as int);
                    }
                    let span = ((height - 1) as u128) * (stride as u128) + pivot + left;
                    if span > data_len {
                        return false;
                    }
                    if span > out_len as u128 {
                        return false;
                    }
                }
                true
            },
        }
    }
}

/// The side-scrolling law: in a one-byte-per-pixel frame whose rows hold
/// the whole picture width, drawing a window shows it as the rightmost
/// column: row `r` of that column shows the level of bin `bin_of_row(r)`.
/// The picture keeps the same height as the frames.
pub proof fn lemma_newest_column_at_right_edge(
    out: Seq<u8>,
    s: ScratchpadView,
    levels: Seq<u8>,
    stride: u32,
    row: int,
)
    requires
        draw_fits(s, levels, stride, 1, s.height as u32, out.len()),
        s.height <= u32::MAX,
        s.column < s.width,
        s.width <= stride,
        0 <= row < s.height,
    ensures
        frame_after_draw(out, s, levels, stride, 1, s.height as u32)[row * stride + s.width - 1]
            == levels[bin_of_row(row, s.height as int)],
{
    let h = s.height as int;
    let w = s.width as int;
    let c = s.column as int;
    let st = stride as int;
    let column = column_u32(s.column);
    assert(column == c) by {
        assert(c < w);
        assert(column * 1 <= u32::MAX);
    };
    let painted = paint_rows(s.data, levels, st, column * 1, h, s.height);
    let pivot = pivot_of(c, 1);
    let left = left_size_of(w, c, 1);
    assert(pivot == c + 1);
    assert(left == w - c - 1);
    lemma_mul_inequality(row, h - 1, st);
    lemma_paint_rows_len(s.data, levels, st, column * 1, h, s.height);
    lemma_column_pixels(s.data, levels, st, column * 1, h, s.height);
    lemma_scroll_copy_rotates(out, painted, st, pivot, left, s.height);
    let i = row * st + w - 1;
    assert(0 <= row * st) by (nonlinear_arith)
        requires
            0 <= row,
            0 <= st,
    ;
    lemma_fundamental_div_mod_converse(i, st, row, w - 1);
    lemma_fundamental_div_mod_converse(w - 1 + pivot, w, 1, c);
    assert(painted[row * st + c] == levels[bin_of_row(row, h)]);
}

/// The guard of `visualize` accepts every column of a matching frame: a
/// one-byte-per-pixel frame whose rows hold the picture width, of the
/// picture's height and size, with a whole spectrum, may be drawn at any
/// column, the last one included.
pub proof fn lemma_matching_frame_fits(
    s: ScratchpadView,
    levels: Seq<u8>,
    stride: u32,
    out_len: nat,
)
    requires
        s.column < s.width,
        s.width <= stride,
        s.height <= u32::MAX,
        s.data.len() == s.height * stride,
        out_len == s.height * stride,
        s.height > 0 ==> (s.height - 1) * stride <= u32::MAX,
        s.height > 0 ==> (s.height - 1) * NUM_BINS <= u32::MAX,
        levels.len() == NUM_BINS + 1,
    ensures
        draw_fits(s, levels, stride, 1, s.height as u32, out_len),
{
    let h = s.height as int;
    let st = stride as int;
    let c = s.column as int;
    let w = s.width as int;
    assert(column_u32(s.column) == c);
    assert(pivot_of(c, 1) == c + 1);
    assert(left_size_of(w, c, 1) == w - c - 1);
    if h > 0 {
        assert(h * st == (h - 1) * st + st) by (nonlinear_arith);
    }
}

/// Where the analysed window starts in a buffer of `size_bytes` bytes of
/// audio, `bpf` bytes per frame: the last `WINDOW_SIZE` frames are
/// analysed, and a shorter buffer is skipped.
pub fn analysis_offset(bpf: usize, size_bytes: usize) -> (r: Option<usize>)
    requires
        bpf * WINDOW_SIZE <= usize::MAX,
    ensures
        r == (if size_bytes < bpf * WINDOW_SIZE {
            None::<usize>
        } else {
            Some((size_bytes - bpf * WINDOW_SIZE) as usize)
        }),
{
    let window_bytes = bpf * WINDOW_SIZE;
    if size_bytes < window_bytes {
        None
    } else {
        Some(size_bytes - window_bytes)
    }
}

} // verus!
