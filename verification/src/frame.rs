//! Decoded frames as plain values: three I420 planes with their strides,
//! and the conversion of such a frame to a packed RGB or BGRA buffer.

use vstd::arithmetic::div_mod::{
    lemma_div_is_ordered, lemma_div_plus_one, lemma_fundamental_div_mod,
    lemma_fundamental_div_mod_converse, lemma_mod_division_less_than_divisor,
    lemma_mod_multiples_basic,
};
use vstd::arithmetic::mul::{
    lemma_mul_inequality, lemma_mul_is_commutative, lemma_mul_is_distributive_add_other_way,
    lemma_mul_is_distributive_sub_other_way, lemma_mul_nonnegative,
};
use vstd::prelude::*;

verus! {

/// One decoded frame in I420 layout: a luma plane and two half-resolution
/// chroma planes, each with its own row stride.
pub struct FrameData {
    /// Displayed width in pixels.
    pub d_w: u32,
    /// Displayed height in pixels.
    pub d_h: u32,
    /// Row strides of the planes; the fourth entry is unused and zero.
    pub stride: [i32; 4],
    /// The luma plane.
    pub y: Vec<u8>,
    /// The first chroma plane.
    pub u: Vec<u8>,
    /// The second chroma plane.
    pub v: Vec<u8>,
}

/// The height rounded up to an even number of rows: chroma planes cover
/// two luma rows each, so an odd image stores one extra luma row's worth.
pub open spec fn even_rows(h: int) -> int {
    if h % 2 == 0 {
        h
    } else {
        h + 1
    }
}

impl FrameData {
    /// The plane buffers are exactly as large as the strides and the
    /// (evened) height dictate, and every stride covers the pixels of a row.
    pub open spec fn wf(&self) -> bool {
        &&& 1 <= self.d_w
        &&& 1 <= self.d_h
        &&& self.d_w <= self.stride@[0]
        &&& (self.d_w + 1) / 2 <= self.stride@[1]
        &&& self.stride@[2] == self.stride@[1]
        &&& self.y@.len() == self.stride@[0] * even_rows(self.d_h as int)
        &&& self.u@.len() == self.stride@[1] * (even_rows(self.d_h as int) / 2)
        &&& self.v@.len() == self.u@.len()
    }

    /// The luma sample of a pixel.
    pub open spec fn y_at(&self, row: int, col: int) -> u8 {
        self.y@[row * self.stride@[0] + col]
    }

    /// The first chroma sample of a pixel (shared by a 2x2 block).
    pub open spec fn u_at(&self, row: int, col: int) -> u8 {
        self.u@[(row / 2) * self.stride@[1] + col / 2]
    }

    /// The second chroma sample of a pixel (shared by a 2x2 block).
    pub open spec fn v_at(&self, row: int, col: int) -> u8 {
        self.v@[(row / 2) * self.stride@[2] + col / 2]
    }
}

/// Clamps an integer into the byte range.
pub open spec fn clamp_byte(v: int) -> u8 {
    if v < 0 {
        0u8
    } else if v > 255 {
        255u8
    } else {
        v as u8
    }
}

/// The red channel of a pixel, by the fixed-point BT.601 studio-swing
/// formula.
pub open spec fn spec_red(yv: u8, vv: u8) -> u8 {
    clamp_byte((298 * (yv - 16) + 409 * (vv - 128) + 128) / 256)
}

/// The green channel of a pixel.
pub open spec fn spec_green(yv: u8, uv: u8, vv: u8) -> u8 {
    clamp_byte((298 * (yv - 16) - 100 * (uv - 128) - 208 * (vv - 128) + 128) / 256)
}

/// The blue channel of a pixel.
pub open spec fn spec_blue(yv: u8, uv: u8) -> u8 {
    clamp_byte((298 * (yv - 16) + 516 * (uv - 128) + 128) / 256)
}

/// Divides by 256 and clamps into the byte range.
fn clamp_shift8(t: i32) -> (b: u8)
    ensures
        b == clamp_byte(t as int / 256),
{
    if t < 0 {
        proof {
            lemma_fundamental_div_mod(t as int, 256);
        }
        0
    } else {
        let q = (t as u32) / 256;
        if q > 255 {
            255
        } else {
            q as u8
        }
    }
}

/// One pixel's worth of conversion from YUV samples to (red, green, blue).
pub fn yuv_to_rgb(yv: u8, uv: u8, vv: u8) -> (rgb: (u8, u8, u8))
    ensures
        rgb.0 == spec_red(yv, vv),
        rgb.1 == spec_green(yv, uv, vv),
        rgb.2 == spec_blue(yv, uv),
{
    let c = yv as i32 - 16;
    let d = uv as i32 - 128;
    let e = vv as i32 - 128;
    let r = clamp_shift8(298 * c + 409 * e + 128);
    let g = clamp_shift8(298 * c - 100 * d - 208 * e + 128);
    let b = clamp_shift8(298 * c + 516 * d + 128);
    (r, g, b)
}

/// The smallest multiple of `a` that is at least `w`.
pub open spec fn spec_align_up(w: int, a: int) -> int {
    ((w + a - 1) / a) * a
}

/// Rounds a width up to the next multiple of the alignment.
pub fn align_up(w: usize, a: usize) -> (r: usize)
    requires
        1 <= a,
        w + a <= usize::MAX,
    ensures
        r == spec_align_up(w as int, a as int),
        w <= r,
        r < w + a,
        r as int % a as int == 0,
{
    let x = w + a - 1;
    let q = x / a;
    proof {
        lemma_fundamental_div_mod(x as int, a as int);
        lemma_mod_division_less_than_divisor(x as int, a as int);
        lemma_mod_multiples_basic(q as int, a as int);
        lemma_mul_is_commutative(q as int, a as int);
        assert(q * a == x - x as int % a as int);
    }
    q * a
}

/// Bytes per pixel of the packed output.
pub open spec fn bpp(rgba: bool) -> int {
    if rgba {
        4
    } else {
        3
    }
}

/// The output bytes of one converted pixel: blue, green, red, opaque
/// alpha for the four-byte format, red, green, blue for the three-byte one.
pub open spec fn pixel_bytes(r: u8, g: u8, b: u8, rgba: bool) -> Seq<u8> {
    if rgba {
        seq![b, g, r, 255u8]
    } else {
        seq![r, g, b]
    }
}

/// The output bytes of one padding column: zeroes.
pub open spec fn pad_bytes(rgba: bool) -> Seq<u8> {
    if rgba {
        seq![0u8, 0u8, 0u8, 0u8]
    } else {
        seq![0u8, 0u8, 0u8]
    }
}

impl FrameData {
    /// The output bytes of the pixel at (row, col): a converted pixel
    /// inside the image, zero padding beyond its width.
    pub open spec fn pixel_seq(&self, rgba: bool, row: int, col: int) -> Seq<u8> {
        if col < self.d_w {
            pixel_bytes(
                spec_red(self.y_at(row, col), self.v_at(row, col)),
                spec_green(self.y_at(row, col), self.u_at(row, col), self.v_at(row, col)),
                spec_blue(self.y_at(row, col), self.u_at(row, col)),
                rgba,
            )
        } else {
            pad_bytes(rgba)
        }
    }

    /// The first `col` pixels of one output row, in order.
    pub open spec fn row_prefix(&self, rgba: bool, row: int, col: int) -> Seq<u8>
        decreases col,
    {
        if col <= 0 {
            Seq::empty()
        } else {
            self.row_prefix(rgba, row, col - 1) + self.pixel_seq(rgba, row, col - 1)
        }
    }

    /// The first `row` output rows, each `aw` pixels wide, in order.
    pub open spec fn img_prefix(&self, rgba: bool, aw: int, row: int) -> Seq<u8>
        decreases row,
    {
        if row <= 0 {
            Seq::empty()
        } else {
            self.img_prefix(rgba, aw, row - 1) + self.row_prefix(rgba, row - 1, aw)
        }
    }

    /// The packed output of the whole frame, rows padded to the alignment.
    pub open spec fn rgb_view(&self, stride_align: int, rgba: bool) -> Seq<u8> {
        self.img_prefix(rgba, spec_align_up(self.d_w as int, stride_align), self.d_h as int)
    }
}

/// Every pixel inside a well-formed frame has its three samples inside
/// the three plane buffers.
proof fn lemma_sample_bounds(f: &FrameData, row: int, col: int)
    requires
        f.wf(),
        0 <= row < f.d_h,
        0 <= col < f.d_w,
    ensures
        0 <= row * f.stride@[0] + col < f.y@.len(),
        0 <= (row / 2) * f.stride@[1] + col / 2 < f.u@.len(),
        0 <= (row / 2) * f.stride@[2] + col / 2 < f.v@.len(),
{
    let h2 = even_rows(f.d_h as int);
    let s0 = f.stride@[0] as int;
    let s1 = f.stride@[1] as int;
    let w = f.d_w as int;
    let k = h2 / 2;
    assert(h2 % 2 == 0 && f.d_h <= h2);
    lemma_fundamental_div_mod(h2, 2);
    assert(h2 == 2 * k);
    // The luma sample: row is below the evened height, col below the stride.
    lemma_mul_inequality(row, h2 - 1, s0);
    lemma_mul_is_distributive_sub_other_way(s0, h2, 1);
    assert(row * s0 + col < h2 * s0);
    assert(f.y@.len() == s0 * h2);
    // The chroma samples: the half row is below half the evened height,
    // the half column below the chroma stride.
    lemma_fundamental_div_mod_converse(h2 - 1, 2, k - 1, 1);
    lemma_div_is_ordered(row, h2 - 1, 2);
    assert(row / 2 <= k - 1);
    lemma_div_plus_one(w - 1, 2);
    lemma_div_is_ordered(col, w - 1, 2);
    assert(col / 2 <= (w + 1) / 2 - 1);
    lemma_div_pos(row);
    lemma_div_pos(col);
    lemma_mul_inequality(row / 2, k - 1, s1);
    lemma_mul_is_distributive_sub_other_way(s1, k, 1);
    assert((row / 2) * s1 + col / 2 < k * s1);
    assert(f.u@.len() == s1 * k);
}

/// A non-negative number halved stays non-negative.
proof fn lemma_div_pos(x: int)
    requires
        0 <= x,
    ensures
        0 <= x / 2,
{
    lemma_fundamental_div_mod(x, 2);
    lemma_mod_division_less_than_divisor(x, 2);
}

/// Concatenation of sequences is associative.
proof fn lemma_concat_assoc(a: Seq<u8>, b: Seq<u8>, c: Seq<u8>)
    ensures
        (a + b) + c == a + (b + c),
{
    assert((a + b) + c =~= a + (b + c));
}

/// Appends the output bytes of one converted pixel.
fn push_pixel(dst: &mut Vec<u8>, r: u8, g: u8, b: u8, rgba: bool)
    ensures
        final(dst)@ == old(dst)@ + pixel_bytes(r, g, b, rgba),
{
    if rgba {
        dst.push(b);
        dst.push(g);
        dst.push(r);
        dst.push(255);
    } else {
        dst.push(r);
        dst.push(g);
        dst.push(b);
    }
    proof {
        assert(final(dst)@ =~= old(dst)@ + pixel_bytes(r, g, b, rgba));
    }
}

/// Appends the zero bytes of one padding column.
fn push_pad(dst: &mut Vec<u8>, rgba: bool)
    ensures
        final(dst)@ == old(dst)@ + pad_bytes(rgba),
{
    dst.push(0);
    dst.push(0);
    dst.push(0);
    if rgba {
        dst.push(0);
    }
    proof {
        assert(final(dst)@ =~= old(dst)@ + pad_bytes(rgba));
    }
}

/// Converts one pixel (or one padding column) and appends its bytes.
fn convert_pixel(f: &FrameData, row: usize, col: usize, rgba: bool, dst: &mut Vec<u8>)
    requires
        f.wf(),
        row < f.d_h,
    ensures
        final(dst)@ == old(dst)@ + f.pixel_seq(rgba, row as int, col as int),
{
    let w = f.d_w as usize;
    if col < w {
        proof {
            lemma_sample_bounds(f, row as int, col as int);
        }
        let s0 = f.stride[0] as usize;
        let s1 = f.stride[1] as usize;
        let s2 = f.stride[2] as usize;
        let ylen = f.y.len();
        let ulen = f.u.len();
        let vlen = f.v.len();
        assert(s0 == f.stride@[0] && s1 == f.stride@[1] && s2 == f.stride@[2]);
        assert(row * s0 + col < ylen);
        assert((row as int / 2) * s1 + col as int / 2 < ulen);
        assert((row as int / 2) * s2 + col as int / 2 < vlen);
        let yv = f.y[row * s0 + col];
        let uv = f.u[(row / 2) * s1 + col / 2];
        let vv = f.v[(row / 2) * s2 + col / 2];
        let (r, g, b) = yuv_to_rgb(yv, uv, vv);
        push_pixel(dst, r, g, b, rgba);
        proof {
            assert(yv == f.y_at(row as int, col as int));
            assert(uv == f.u_at(row as int, col as int));
            assert(vv == f.v_at(row as int, col as int));
        }
    } else {
        push_pad(dst, rgba);
    }
}

/// Converts a whole I420 frame to a packed pixel buffer, row by row, with
/// each row padded with zero bytes up to the aligned width.
pub fn i420_to_rgb(f: &FrameData, stride_align: usize, rgba: bool, dst: &mut Vec<u8>)
    requires
        f.wf(),
        1 <= stride_align,
        f.d_w + stride_align <= usize::MAX,
    ensures
        final(dst)@ == f.rgb_view(stride_align as int, rgba),
{
    dst.clear();
    let w = f.d_w as usize;
    let h = f.d_h as usize;
    let aw = align_up(w, stride_align);
    let mut row: usize = 0;
    while row < h
        invariant
            f.wf(),
            w == f.d_w,
            h == f.d_h,
            aw == spec_align_up(f.d_w as int, stride_align as int),
            row <= h,
            dst@ == f.img_prefix(rgba, aw as int, row as int),
        decreases h - row,
    {
        let mut col: usize = 0;
        while col < aw
            invariant
                f.wf(),
                w == f.d_w,
                h == f.d_h,
                row < h,
                col <= aw,
                dst@ == f.img_prefix(rgba, aw as int, row as int) + f.row_prefix(
                    rgba,
                    row as int,
                    col as int,
                ),
            decreases aw - col,
        {
            convert_pixel(f, row, col, rgba, dst);
            proof {
                let pa = f.img_prefix(rgba, aw as int, row as int);
                let pb = f.row_prefix(rgba, row as int, col as int);
                let pc = f.pixel_seq(rgba, row as int, col as int);
                lemma_concat_assoc(pa, pb, pc);
                assert(f.row_prefix(rgba, row as int, col + 1) == pb + pc);
            }
            col += 1;
        }
        proof {
            assert(f.img_prefix(rgba, aw as int, row + 1) == f.img_prefix(
                rgba,
                aw as int,
                row as int,
            ) + f.row_prefix(rgba, row as int, aw as int));
        }
        row += 1;
    }
}

/// One output row prefix is one pixel's bytes per column.
pub proof fn lemma_row_prefix_len(f: &FrameData, rgba: bool, row: int, col: int)
    requires
        0 <= col,
    ensures
        f.row_prefix(rgba, row, col).len() == col * bpp(rgba),
    decreases col,
{
    if col == 0 {
    } else {
        lemma_row_prefix_len(f, rgba, row, col - 1);
        assert(f.row_prefix(rgba, row, col) == f.row_prefix(rgba, row, col - 1) + f.pixel_seq(
            rgba,
            row,
            col - 1,
        ));
        assert(f.pixel_seq(rgba, row, col - 1).len() == bpp(rgba));
        lemma_mul_is_distributive_sub_other_way(bpp(rgba), col, 1);
    }
}

/// An output prefix of whole rows is one row's bytes per row.
pub proof fn lemma_img_prefix_len(f: &FrameData, rgba: bool, aw: int, row: int)
    requires
        0 <= aw,
        0 <= row,
    ensures
        f.img_prefix(rgba, aw, row).len() == row * (aw * bpp(rgba)),
    decreases row,
{
    if row == 0 {
    } else {
        lemma_img_prefix_len(f, rgba, aw, row - 1);
        lemma_row_prefix_len(f, rgba, row - 1, aw);
        assert(f.img_prefix(rgba, aw, row) == f.img_prefix(rgba, aw, row - 1) + f.row_prefix(
            rgba,
            row - 1,
            aw,
        ));
        lemma_mul_is_distributive_sub_other_way(aw * bpp(rgba), row, 1);
    }
}

/// The whole output holds one frame of aligned rows: height times the
/// aligned width times the bytes per pixel.
pub proof fn lemma_rgb_view_len(f: &FrameData, stride_align: int, rgba: bool)
    requires
        f.wf(),
        1 <= stride_align,
    ensures
        f.rgb_view(stride_align, rgba).len() == f.d_h * (spec_align_up(
            f.d_w as int,
            stride_align,
        ) * bpp(rgba)),
{
    let aw = spec_align_up(f.d_w as int, stride_align);
    lemma_align_up_bounds(f.d_w as int, stride_align);
    lemma_img_prefix_len(f, rgba, aw, f.d_h as int);
}

/// Rounding up to a positive alignment moves a non-negative width up by
/// less than the alignment.
pub proof fn lemma_align_up_bounds(w: int, a: int)
    requires
        0 <= w,
        1 <= a,
    ensures
        w <= spec_align_up(w, a) < w + a,
        spec_align_up(w, a) % a == 0,
{
    let x = w + a - 1;
    lemma_fundamental_div_mod(x, a);
    lemma_mod_division_less_than_divisor(x, a);
    lemma_mod_multiples_basic(x / a, a);
    lemma_mul_is_commutative(x / a, a);
}

/// One byte of one output row prefix, by pixel position and channel.
pub proof fn lemma_row_prefix_index(f: &FrameData, rgba: bool, row: int, cols: int, col: int, ch: int)
    requires
        0 <= col < cols,
        0 <= ch < bpp(rgba),
    ensures
        f.row_prefix(rgba, row, cols).len() == cols * bpp(rgba),
        f.row_prefix(rgba, row, cols)[col * bpp(rgba) + ch] == f.pixel_seq(rgba, row, col)[ch],
    decreases cols,
{
    lemma_row_prefix_len(f, rgba, row, cols);
    if col == cols - 1 {
        lemma_row_prefix_len(f, rgba, row, cols - 1);
        lemma_mul_is_distributive_sub_other_way(bpp(rgba), cols, 1);
    } else {
        lemma_row_prefix_index(f, rgba, row, cols - 1, col, ch);
        lemma_mul_inequality(col + 1, cols - 1, bpp(rgba));
        lemma_mul_is_distributive_add_other_way(bpp(rgba), col, 1);
    }
}

/// One byte of the output prefix, by row, pixel position and channel.
pub proof fn lemma_img_prefix_index(
    f: &FrameData,
    rgba: bool,
    aw: int,
    rows: int,
    row: int,
    col: int,
    ch: int,
)
    requires
        0 <= row < rows,
        0 <= col < aw,
        0 <= ch < bpp(rgba),
    ensures
        f.img_prefix(rgba, aw, rows).len() == rows * (aw * bpp(rgba)),
        f.img_prefix(rgba, aw, rows)[row * (aw * bpp(rgba)) + col * bpp(rgba) + ch]
            == f.pixel_seq(rgba, row, col)[ch],
    decreases rows,
{
    lemma_img_prefix_len(f, rgba, aw, rows);
    if row == rows - 1 {
        lemma_img_prefix_len(f, rgba, aw, rows - 1);
        lemma_row_prefix_index(f, rgba, row, aw, col, ch);
        lemma_mul_is_distributive_sub_other_way(aw * bpp(rgba), rows, 1);
        assert(col * bpp(rgba) + ch < aw * bpp(rgba)) by {
            lemma_mul_inequality(col + 1, aw, bpp(rgba));
            lemma_mul_is_distributive_add_other_way(bpp(rgba), col, 1);
        }
    } else {
        lemma_img_prefix_index(f, rgba, aw, rows - 1, row, col, ch);
        assert(row * (aw * bpp(rgba)) + col * bpp(rgba) + ch < (rows - 1) * (aw * bpp(rgba))) by {
            lemma_mul_inequality(row + 1, rows - 1, aw * bpp(rgba));
            lemma_mul_is_distributive_add_other_way(aw * bpp(rgba), row, 1);
            lemma_mul_inequality(col + 1, aw, bpp(rgba));
            lemma_mul_is_distributive_add_other_way(bpp(rgba), col, 1);
            lemma_mul_nonnegative(row, aw * bpp(rgba));
        }
    }
}

/// The law of the conversion: in the packed output of a well-formed
/// frame, the bytes of the pixel at (row, col) are exactly the converted
/// samples of that pixel -- or zero padding beyond the image's width --
/// at the offset its row, aligned width and channel dictate.
pub proof fn lemma_rgb_view_index(
    f: &FrameData,
    stride_align: int,
    rgba: bool,
    row: int,
    col: int,
    ch: int,
)
    requires
        f.wf(),
        1 <= stride_align,
        0 <= row < f.d_h,
        0 <= col < spec_align_up(f.d_w as int, stride_align),
        0 <= ch < bpp(rgba),
    ensures
        f.rgb_view(stride_align, rgba)[row * (spec_align_up(f.d_w as int, stride_align) * bpp(
            rgba,
        )) + col * bpp(rgba) + ch] == f.pixel_seq(rgba, row, col)[ch],
{
    let aw = spec_align_up(f.d_w as int, stride_align);
    lemma_img_prefix_index(f, rgba, aw, f.d_h as int, row, col, ch);
}

} // verus!
