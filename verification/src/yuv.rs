//! Conversion of a captured RGB screen image to the planar YUV 4:2:0 layout a
//! video encoder takes.

use vstd::prelude::*;
use crate::video::PixelProvider;

verus! {

/// An RGB image: `width * height` pixels of three bytes (red, green, blue),
/// row after row.
pub struct RgbImage {
    pub width: usize,
    pub height: usize,
    pub data: Vec<u8>,
}

pub open spec fn image_wf(img: RgbImage) -> bool {
    img.data@.len() == img.width * img.height * 3
}

/// Channel `k` of the pixel at column `x`, row `y`.
pub open spec fn channel(img: RgbImage, x: int, y: int, k: int) -> int {
    img.data@[3 * (img.width * y + x) + k] as int
}

/// Luma of a colour (BT.601, studio range).
pub open spec fn luma(r: int, g: int, b: int) -> int {
    (66 * r + 129 * g + 25 * b + 128) / 256 + 16
}

/// Blue-difference chroma of a colour.
pub open spec fn chroma_u(r: int, g: int, b: int) -> int {
    (128 + 112 * b - 38 * r - 74 * g) / 256 + 128
}

/// Red-difference chroma of a colour.
pub open spec fn chroma_v(r: int, g: int, b: int) -> int {
    (128 + 112 * r - 94 * g - 18 * b) / 256 + 128
}

pub open spec fn luma_at(img: RgbImage, x: int, y: int) -> u8 {
    luma(channel(img, x, y, 0), channel(img, x, y, 1), channel(img, x, y, 2)) as u8
}

/// Channel `k` averaged over the 2x2 block whose top-left pixel is `(2x, 2y)`.
pub open spec fn block_channel(img: RgbImage, x: int, y: int, k: int) -> int {
    (channel(img, 2 * x, 2 * y, k) + channel(img, 2 * x + 1, 2 * y, k) + channel(
        img,
        2 * x,
        2 * y + 1,
        k,
    ) + channel(img, 2 * x + 1, 2 * y + 1, k)) / 4
}

/// The chroma of the 2x2 block at `(x, y)`: blue-difference when `blue`,
/// red-difference otherwise.
pub open spec fn chroma_at(img: RgbImage, x: int, y: int, blue: bool) -> u8 {
    let r = block_channel(img, x, y, 0);
    let g = block_channel(img, x, y, 1);
    let b = block_channel(img, x, y, 2);
    (if blue {
        chroma_u(r, g, b)
    } else {
        chroma_v(r, g, b)
    }) as u8
}

/// The luma plane after writing the first `cols` pixels of row `yy`.
pub open spec fn luma_row(plane: Seq<u8>, img: RgbImage, line: int, yy: int, cols: int) -> Seq<u8>
    decreases cols,
{
    if cols <= 0 {
        plane
    } else {
        luma_row(plane, img, line, yy, cols - 1).update(line * yy + cols - 1, luma_at(img, cols - 1, yy))
    }
}

/// The luma plane after writing `rows` rows of `cols` pixels, row by row.
pub open spec fn luma_plane(plane: Seq<u8>, img: RgbImage, line: int, rows: int, cols: int) -> Seq<u8>
    decreases rows,
{
    if rows <= 0 {
        plane
    } else {
        luma_row(luma_plane(plane, img, line, rows - 1, cols), img, line, rows - 1, cols)
    }
}

/// A chroma plane after writing the first `cols` blocks of block row `yy`.
pub open spec fn chroma_row(plane: Seq<u8>, img: RgbImage, line: int, yy: int, cols: int, blue: bool) -> Seq<u8>
    decreases cols,
{
    if cols <= 0 {
        plane
    } else {
        chroma_row(plane, img, line, yy, cols - 1, blue).update(
            yy * line + cols - 1,
            chroma_at(img, cols - 1, yy, blue),
        )
    }
}

/// A chroma plane after writing `rows` block rows of `cols` blocks.
pub open spec fn chroma_plane(plane: Seq<u8>, img: RgbImage, line: int, rows: int, cols: int, blue: bool) -> Seq<u8>
    decreases rows,
{
    if rows <= 0 {
        plane
    } else {
        chroma_row(chroma_plane(plane, img, line, rows - 1, cols, blue), img, line, rows - 1, cols, blue)
    }
}

/// Index `line * y + x` with `y < rows`, `x < cols` stays below `bound`.
proof fn lemma_index_bound(line: int, y: int, x: int, rows: int, cols: int)
    requires
        0 <= line,
        0 <= y < rows,
        0 <= x < cols,
    ensures
        0 <= line * y,
        line * y + x < line * (rows - 1) + cols,
{
    vstd::arithmetic::mul::lemma_mul_nonnegative(line, y);
    vstd::arithmetic::mul::lemma_mul_inequality(y, rows - 1, line);
    vstd::arithmetic::mul::lemma_mul_is_commutative(y, line);
    vstd::arithmetic::mul::lemma_mul_is_commutative(rows - 1, line);
}

/// Pixel `(x, y)` of a well-formed image lies inside its data.
proof fn lemma_pixel_in_image(img: RgbImage, x: int, y: int)
    requires
        image_wf(img),
        0 <= x < img.width,
        0 <= y < img.height,
    ensures
        0 <= 3 * (img.width * y + x),
        3 * (img.width * y + x) + 2 < img.data@.len(),
{
    lemma_index_bound(img.width as int, y, x, img.height as int, img.width as int);
    assert(img.width * (img.height - 1) + img.width == img.width * img.height) by (nonlinear_arith);
}

fn pixel(img: &RgbImage, x: usize, y: usize) -> (p: (i32, i32, i32))
    requires
        image_wf(*img),
        x < img.width,
        y < img.height,
    ensures
        p.0 == channel(*img, x as int, y as int, 0),
        p.1 == channel(*img, x as int, y as int, 1),
        p.2 == channel(*img, x as int, y as int, 2),
{
    let n = img.data.len();
    proof {
        lemma_pixel_in_image(*img, x as int, y as int);
    }
    let i = 3 * (img.width * y + x);
    (img.data[i] as i32, img.data[i + 1] as i32, img.data[i + 2] as i32)
}

fn luma_of(img: &RgbImage, x: usize, y: usize) -> (l: u8)
    requires
        image_wf(*img),
        x < img.width,
        y < img.height,
    ensures
        l == luma_at(*img, x as int, y as int),
{
    let (r, g, b) = pixel(img, x, y);
    let s = 66 * r + 129 * g + 25 * b + 128;
    assert((s >> 8i32) == s / 256) by (bit_vector)
        requires
            0 <= s <= 60000,
    ;
    ((s >> 8) + 16) as u8
}

fn block_chroma(img: &RgbImage, x: usize, y: usize) -> (c: (u8, u8))
    requires
        image_wf(*img),
        x < img.width / 2,
        y < img.height / 2,
    ensures
        c.0 == chroma_at(*img, x as int, y as int, true),
        c.1 == chroma_at(*img, x as int, y as int, false),
{
    let (r11, g11, b11) = pixel(img, 2 * x, 2 * y);
    let (r12, g12, b12) = pixel(img, 2 * x + 1, 2 * y);
    let (r21, g21, b21) = pixel(img, 2 * x, 2 * y + 1);
    let (r22, g22, b22) = pixel(img, 2 * x + 1, 2 * y + 1);
    let mut r = r11 + r12 + r21 + r22;
    let mut g = g11 + g12 + g21 + g22;
    let mut b = b11 + b12 + b21 + b22;
    assert((r >> 2i32) == r / 4) by (bit_vector)
        requires
            0 <= r <= 1020,
    ;
    assert((g >> 2i32) == g / 4) by (bit_vector)
        requires
            0 <= g <= 1020,
    ;
    assert((b >> 2i32) == b / 4) by (bit_vector)
        requires
            0 <= b <= 1020,
    ;
    r >>= 2;
    g >>= 2;
    b >>= 2;
    let su = 128 + 112 * b - 38 * r - 74 * g;
    let sv = 128 + 112 * r - 94 * g - 18 * b;
    assert((su >> 8i32) == su / 256) by (bit_vector)
        requires
            -40000 <= su <= 40000,
    ;
    assert((sv >> 8i32) == sv / 256) by (bit_vector)
        requires
            -40000 <= sv <= 40000,
    ;
    (((su >> 8) + 128) as u8, ((sv >> 8) + 128) as u8)
}

proof fn lemma_luma_row(plane: Seq<u8>, img: RgbImage, line: int, yy: int, cols: int, i: int)
    requires
        0 <= line * yy,
        0 <= cols,
        line * yy + cols <= plane.len(),
    ensures
        luma_row(plane, img, line, yy, cols).len() == plane.len(),
        0 <= i < plane.len() ==> luma_row(plane, img, line, yy, cols)[i] == if line * yy <= i
            < line * yy + cols {
            luma_at(img, i - line * yy, yy)
        } else {
            plane[i]
        },
    decreases cols,
{
    if cols > 0 {
        lemma_luma_row(plane, img, line, yy, cols - 1, i);
    }
}

proof fn lemma_chroma_row(plane: Seq<u8>, img: RgbImage, line: int, yy: int, cols: int, blue: bool, i: int)
    requires
        0 <= yy * line,
        0 <= cols,
        yy * line + cols <= plane.len(),
    ensures
        chroma_row(plane, img, line, yy, cols, blue).len() == plane.len(),
        0 <= i < plane.len() ==> chroma_row(plane, img, line, yy, cols, blue)[i] == if yy * line
            <= i < yy * line + cols {
            chroma_at(img, i - yy * line, yy, blue)
        } else {
            plane[i]
        },
    decreases cols,
{
    if cols > 0 {
        lemma_chroma_row(plane, img, line, yy, cols - 1, blue, i);
    }
}

/// With lines at least as long as a row, the row `r` starts at `line * r`
/// and ends before the next one.
proof fn lemma_rows_apart(line: int, r: int, c: int, later: int, cols: int)
    requires
        cols <= line,
        0 <= c < cols,
        0 <= r < later,
    ensures
        line * r + c < line * later,
        0 <= line * r,
{
    vstd::arithmetic::mul::lemma_mul_inequality(r + 1, later, line);
    vstd::arithmetic::mul::lemma_mul_is_distributive_add(line, r, 1);
    vstd::arithmetic::mul::lemma_mul_is_commutative(r + 1, line);
    vstd::arithmetic::mul::lemma_mul_is_commutative(later, line);
    vstd::arithmetic::mul::lemma_mul_nonnegative(line, r);
}

/// When each line holds at least a row, byte `line * r + c` of the luma
/// plane is the luma of pixel `(c, r)` for every pixel written.
pub proof fn luma_plane_holds_pixels(
    plane: Seq<u8>,
    img: RgbImage,
    line: int,
    rows: int,
    cols: int,
    r: int,
    c: int,
)
    requires
        0 <= cols <= line,
        0 <= r < rows,
        0 <= c < cols,
        line * (rows - 1) + cols <= plane.len(),
    ensures
        luma_plane(plane, img, line, rows, cols).len() == plane.len(),
        luma_plane(plane, img, line, rows, cols)[line * r + c] == luma_at(img, c, r),
    decreases rows,
{
    let prev = luma_plane(plane, img, line, rows - 1, cols);
    lemma_rows_apart(line, r, c, rows, cols);
    if rows - 1 > r {
        lemma_rows_apart(line, rows - 2, 0, rows - 1, 1);
        luma_plane_holds_pixels(plane, img, line, rows - 1, cols, r, c);
        lemma_rows_apart(line, r, c, rows - 1, cols);
        lemma_rows_apart(line, rows - 1, 0, rows, 1);
        lemma_luma_row(prev, img, line, rows - 1, cols, line * r + c);
    } else {
        if rows > 1 {
            lemma_rows_apart(line, rows - 2, 0, rows - 1, 1);
            luma_plane_holds_pixels(plane, img, line, rows - 1, cols, rows - 2, 0);
        } else {
            assert(prev == plane);
        }
        lemma_luma_row(prev, img, line, rows - 1, cols, line * r + c);
    }
}

/// When each line holds at least a row of blocks, byte `line * r + c` of a
/// chroma plane is the chroma of block `(c, r)` for every block written.
pub proof fn chroma_plane_holds_blocks(
    plane: Seq<u8>,
    img: RgbImage,
    line: int,
    rows: int,
    cols: int,
    blue: bool,
    r: int,
    c: int,
)
    requires
        0 <= cols <= line,
        0 <= r < rows,
        0 <= c < cols,
        line * (rows - 1) + cols <= plane.len(),
    ensures
        chroma_plane(plane, img, line, rows, cols, blue).len() == plane.len(),
        chroma_plane(plane, img, line, rows, cols, blue)[line * r + c] == chroma_at(img, c, r, blue),
    decreases rows,
{
    let prev = chroma_plane(plane, img, line, rows - 1, cols, blue);
    lemma_rows_apart(line, r, c, rows, cols);
    vstd::arithmetic::mul::lemma_mul_is_commutative(rows - 1, line);
    vstd::arithmetic::mul::lemma_mul_is_commutative(r, line);
    if rows - 1 > r {
        lemma_rows_apart(line, rows - 2, 0, rows - 1, 1);
        chroma_plane_holds_blocks(plane, img, line, rows - 1, cols, blue, r, c);
        lemma_rows_apart(line, r, c, rows - 1, cols);
        lemma_rows_apart(line, rows - 1, 0, rows, 1);
        lemma_chroma_row(prev, img, line, rows - 1, cols, blue, line * r + c);
    } else {
        if rows > 1 {
            lemma_rows_apart(line, rows - 2, 0, rows - 1, 1);
            chroma_plane_holds_blocks(plane, img, line, rows - 1, cols, blue, rows - 2, 0);
        } else {
            assert(prev == plane);
        }
        lemma_chroma_row(prev, img, line, rows - 1, cols, blue, line * r + c);
    }
}

/// Luma is the BT.601 weighted sum in studio range: 16 plus the colour's
/// `66 : 129 : 25` red-green-blue weighting in 256ths, rounded to nearest
/// (ties up); black is 16 and white 235.
pub proof fn luma_is_the_bt601_weighting(r: int, g: int, b: int)
    ensures
        256 * (luma(r, g, b) - 16) <= 66 * r + 129 * g + 25 * b + 128 < 256 * (luma(r, g, b) - 16)
            + 256,
        luma(0, 0, 0) == 16,
        luma(255, 255, 255) == 235,
{
}

/// Green counts most towards luma, then red, then blue: raising green by `d`
/// never gives a darker luma than raising red by `d`, which never gives a
/// darker one than raising blue by `d`; and the full green, red and blue
/// primaries have luma 144, 81 and 41.
pub proof fn luma_weighs_green_then_red_then_blue(r: int, g: int, b: int, d: int)
    requires
        d >= 0,
    ensures
        luma(r, g + d, b) >= luma(r + d, g, b),
        luma(r + d, g, b) >= luma(r, g, b + d),
        luma(r, g, b) <= luma(r, g, b + d),
        luma(0, 255, 0) == 144,
        luma(255, 0, 0) == 82,
        luma(0, 0, 255) == 41,
{
    let weighted = 128 + 66 * r + 129 * g + 25 * b;
    vstd::arithmetic::div_mod::lemma_div_is_ordered(weighted + 66 * d, weighted + 129 * d, 256);
    vstd::arithmetic::div_mod::lemma_div_is_ordered(weighted + 25 * d, weighted + 66 * d, 256);
    vstd::arithmetic::div_mod::lemma_div_is_ordered(weighted, weighted + 25 * d, 256);
}

/// Grey has no colour: both chroma values of a colour with equal red, green
/// and blue are 128. Blue-difference chroma grows with blue and falls faster
/// with green than with red; red-difference chroma grows with red and falls
/// faster with green than with blue.
pub proof fn chroma_follows_the_colour_differences(r: int, g: int, b: int, d: int)
    requires
        d >= 0,
    ensures
        chroma_u(g, g, g) == 128,
        chroma_v(g, g, g) == 128,
        chroma_u(r, g, b + d) >= chroma_u(r, g, b),
        chroma_u(r, g + d, b) <= chroma_u(r + d, g, b),
        chroma_v(r + d, g, b) >= chroma_v(r, g, b),
        chroma_v(r, g + d, b) <= chroma_v(r, g, b + d),
{
    let su = 128 + 112 * b - 38 * r - 74 * g;
    let sv = 128 + 112 * r - 94 * g - 18 * b;
    vstd::arithmetic::div_mod::lemma_div_is_ordered(su, su + 112 * d, 256);
    vstd::arithmetic::div_mod::lemma_div_is_ordered(su - 74 * d, su - 38 * d, 256);
    vstd::arithmetic::div_mod::lemma_div_is_ordered(sv, sv + 112 * d, 256);
    vstd::arithmetic::div_mod::lemma_div_is_ordered(sv - 94 * d, sv - 18 * d, 256);
    assert(128 + 112 * g - 38 * g - 74 * g == 128);
    assert(128 + 112 * g - 94 * g - 18 * g == 128);
}

/// Each channel of a 2x2 block is the mean of that channel over its four
/// pixels, rounded down; so a block whose four pixels have one colour has the
/// chroma of that colour.
pub proof fn chroma_averages_the_block(img: RgbImage, x: int, y: int)
    ensures
        forall|k: int|
            #![trigger block_channel(img, x, y, k)]
            4 * block_channel(img, x, y, k) <= channel(img, 2 * x, 2 * y, k) + channel(
                img,
                2 * x + 1,
                2 * y,
                k,
            ) + channel(img, 2 * x, 2 * y + 1, k) + channel(img, 2 * x + 1, 2 * y + 1, k) < 4
                * block_channel(img, x, y, k) + 4,
        (forall|k: int|
            0 <= k < 3 ==> #[trigger] channel(img, 2 * x + 1, 2 * y, k) == channel(img, 2 * x, 2 * y, k)
                && channel(img, 2 * x, 2 * y + 1, k) == channel(img, 2 * x, 2 * y, k) && channel(
                img,
                2 * x + 1,
                2 * y + 1,
                k,
            ) == channel(img, 2 * x, 2 * y, k)) ==> {
            let r = channel(img, 2 * x, 2 * y, 0);
            let g = channel(img, 2 * x, 2 * y, 1);
            let b = channel(img, 2 * x, 2 * y, 2);
            &&& chroma_at(img, x, y, true) == chroma_u(r, g, b) as u8
            &&& chroma_at(img, x, y, false) == chroma_v(r, g, b) as u8
        },
{
    if forall|k: int|
        0 <= k < 3 ==> #[trigger] channel(img, 2 * x + 1, 2 * y, k) == channel(img, 2 * x, 2 * y, k)
            && channel(img, 2 * x, 2 * y + 1, k) == channel(img, 2 * x, 2 * y, k) && channel(
            img,
            2 * x + 1,
            2 * y + 1,
            k,
        ) == channel(img, 2 * x, 2 * y, k) {
        assert(channel(img, 2 * x + 1, 2 * y, 0) == channel(img, 2 * x, 2 * y, 0));
        assert(channel(img, 2 * x + 1, 2 * y, 1) == channel(img, 2 * x, 2 * y, 1));
        assert(channel(img, 2 * x + 1, 2 * y, 2) == channel(img, 2 * x, 2 * y, 2));
    }
}

/// Luma of any colour lies in the studio range 16 to 235, and chroma in 16
/// to 240.
pub proof fn yuv_values_stay_in_studio_range(r: int, g: int, b: int)
    requires
        0 <= r <= 255,
        0 <= g <= 255,
        0 <= b <= 255,
    ensures
        16 <= luma(r, g, b) <= 235,
        16 <= chroma_u(r, g, b) <= 240,
        16 <= chroma_v(r, g, b) <= 240,
{
}

/// Keeps the last screen image and converts it to YUV.
pub struct ScreenCaptureGeneric {
    img: Option<RgbImage>,
}

impl ScreenCaptureGeneric {
    pub closed spec fn image(&self) -> Option<RgbImage> {
        self.img
    }

    pub closed spec fn wf(&self) -> bool {
        match self.img {
            Some(i) => image_wf(i),
            None => true,
        }
    }

    /// Nothing captured yet.
    pub fn new() -> (s: Self)
        ensures
            s.image() is None,
            s.wf(),
    {
        ScreenCaptureGeneric { img: None }
    }

    /// Keeps a newly captured screen image.
    pub fn capture(&mut self, img: RgbImage)
        requires
            image_wf(img),
        ensures
            final(self).image() == Some(img),
            final(self).wf(),
    {
        self.img = Some(img);
    }

    /// Width and height of the captured image, `(0, 0)` before the first capture.
    pub fn size(&self) -> (r: (usize, usize))
        ensures
            r == (match self.image() {
                Some(i) => (i.width, i.height),
                None => (0usize, 0usize),
            }),
    {
        match &self.img {
            Some(i) => (i.width, i.height),
            None => (0, 0),
        }
    }

    /// Writes the captured image as YUV 4:2:0: the luma of every pixel of the
    /// largest even-sized part of the image into `y` (row `yy` starting at
    /// `y_line_size * yy`), and the chroma of every 2x2 block into `u` and
    /// `v` (block row `yy` starting at `yy * u_line_size`, resp.
    /// `yy * v_line_size`), row by row and left to right.
    pub fn fill_yuv(
        &self,
        y: &mut [u8],
        u: &mut [u8],
        v: &mut [u8],
        y_line_size: usize,
        u_line_size: usize,
        v_line_size: usize,
    )
        requires
            self.wf(),
            self.image() is Some,
            ({
                let img = self.image()->0;
                let rows = img.height - img.height % 2;
                let cols = img.width - img.width % 2;
                rows > 0 && cols > 0 ==> y_line_size * (rows - 1) + cols <= old(y)@.len()
            }),
            ({
                let img = self.image()->0;
                img.height / 2 > 0 && img.width / 2 > 0 ==> u_line_size * (img.height / 2 - 1)
                    + img.width / 2 <= old(u)@.len() && v_line_size * (img.height / 2 - 1)
                    + img.width / 2 <= old(v)@.len()
            }),
        ensures
            ({
                let img = self.image()->0;
                &&& final(y)@ == luma_plane(
                    old(y)@,
                    img,
                    y_line_size as int,
                    img.height - img.height % 2,
                    img.width - img.width % 2,
                )
                &&& final(u)@ == chroma_plane(
                    old(u)@,
                    img,
                    u_line_size as int,
                    (img.height / 2) as int,
                    (img.width / 2) as int,
                    true,
                )
                &&& final(v)@ == chroma_plane(
                    old(v)@,
                    img,
                    v_line_size as int,
                    (img.height / 2) as int,
                    (img.width / 2) as int,
                    false,
                )
            }),
    {
        let img = match &self.img {
            Some(i) => i,
            None => {
                proof {
                    assert(false);
                }
                return ;
            },
        };
        let width = img.width;
        let height = img.height;
        let rows = height - height % 2;
        let cols = width - width % 2;
        let ghost y0 = y@;
        let y_len = y.len();
        let mut yy: usize = 0;
        while yy < rows
            invariant
                image_wf(*img),
                width == img.width,
                height == img.height,
                rows == height - height % 2,
                cols == width - width % 2,
                yy <= rows,
                rows > 0 && cols > 0 ==> y_line_size * (rows - 1) + cols <= y0.len(),
                y@ == luma_plane(y0, *img, y_line_size as int, yy as int, cols as int),
                y@.len() == y0.len(),
                y_len == y0.len(),
            decreases rows - yy,
        {
            let ghost row_start = y@;
            let mut xx: usize = 0;
            while xx < cols
                invariant
                    image_wf(*img),
                    width == img.width,
                    height == img.height,
                    rows == height - height % 2,
                    cols == width - width % 2,
                    yy < rows,
                    xx <= cols,
                    cols > 0 ==> y_line_size * (rows - 1) + cols <= y0.len(),
                    row_start.len() == y0.len(),
                    y@ == luma_row(row_start, *img, y_line_size as int, yy as int, xx as int),
                    y@.len() == y0.len(),
                    y_len == y0.len(),
                decreases cols - xx,
            {
                proof {
                    lemma_index_bound(y_line_size as int, yy as int, xx as int, rows as int, cols as int);
                }
                let val = luma_of(img, xx, yy);
                y[y_line_size * yy + xx] = val;
                xx = xx + 1;
            }
            yy = yy + 1;
        }
        let ghost u0 = u@;
        let ghost v0 = v@;
        let u_len = u.len();
        let v_len = v.len();
        let half_rows = height / 2;
        let half_cols = width / 2;
        let mut yy: usize = 0;
        while yy < half_rows
            invariant
                image_wf(*img),
                width == img.width,
                height == img.height,
                half_rows == height / 2,
                half_cols == width / 2,
                yy <= half_rows,
                half_rows > 0 && half_cols > 0 ==> u_line_size * (half_rows - 1) + half_cols
                    <= u0.len() && v_line_size * (half_rows - 1) + half_cols <= v0.len(),
                u@ == chroma_plane(u0, *img, u_line_size as int, yy as int, half_cols as int, true),
                v@ == chroma_plane(v0, *img, v_line_size as int, yy as int, half_cols as int, false),
                u@.len() == u0.len(),
                v@.len() == v0.len(),
                u_len == u0.len(),
                v_len == v0.len(),
            decreases half_rows - yy,
        {
            let ghost u_start = u@;
            let ghost v_start = v@;
            let mut xx: usize = 0;
            while xx < half_cols
                invariant
                    image_wf(*img),
                    width == img.width,
                    height == img.height,
                    half_rows == height / 2,
                    half_cols == width / 2,
                    yy < half_rows,
                    xx <= half_cols,
                    half_cols > 0 ==> u_line_size * (half_rows - 1) + half_cols <= u0.len(),
                    half_cols > 0 ==> v_line_size * (half_rows - 1) + half_cols <= v0.len(),
                    u_start.len() == u0.len(),
                    v_start.len() == v0.len(),
                    u@ == chroma_row(u_start, *img, u_line_size as int, yy as int, xx as int, true),
                    v@ == chroma_row(v_start, *img, v_line_size as int, yy as int, xx as int, false),
                    u@.len() == u0.len(),
                    v@.len() == v0.len(),
                    u_len == u0.len(),
                    v_len == v0.len(),
                decreases half_cols - xx,
            {
                proof {
                    lemma_index_bound(u_line_size as int, yy as int, xx as int, half_rows as int, half_cols as int);
                    lemma_index_bound(v_line_size as int, yy as int, xx as int, half_rows as int, half_cols as int);
                    vstd::arithmetic::mul::lemma_mul_is_commutative(yy as int, u_line_size as int);
                    vstd::arithmetic::mul::lemma_mul_is_commutative(yy as int, v_line_size as int);
                }
                let (cu, cv) = block_chroma(img, xx, yy);
                u[yy * u_line_size + xx] = cu;
                v[yy * v_line_size + xx] = cv;
                xx = xx + 1;
            }
            yy = yy + 1;
        }
    }
}

/// A source of screen images that hands out its last frame.
pub trait ScreenCapture {
    /// Whether a frame was captured.
    spec fn has_frame(&self) -> bool;

    /// The last captured frame.
    fn pixel_provider(&self) -> PixelProvider<'_>
        requires
            self.has_frame(),
    ;

    /// Width and height of the last captured frame.
    fn size(&self) -> (usize, usize);
}

impl ScreenCapture for ScreenCaptureGeneric {
    open spec fn has_frame(&self) -> bool {
        self.image() is Some
    }

    fn pixel_provider(&self) -> (p: PixelProvider<'_>)
        ensures
            p matches PixelProvider::RGB(w, h, b) && w == self.image()->0.width && h
                == self.image()->0.height && b@ == self.image()->0.data@,
    {
        match &self.img {
            Some(i) => PixelProvider::RGB(i.width, i.height, i.data.as_slice()),
            None => {
                proof {
                    assert(false);
                }
                PixelProvider::RGB(0, 0, &[])
            },
        }
    }

    fn size(&self) -> (r: (usize, usize))
        ensures
            r == (match self.image() {
                Some(i) => (i.width, i.height),
                None => (0usize, 0usize),
            }),
    {
        ScreenCaptureGeneric::size(self)
    }
}

} // verus!
