//! A synthetic capture source: a still image of eight colour stripes over
//! which a moving colour gradient band is drawn on every frame.

use vstd::prelude::*;
use vstd::arithmetic::div_mod::{lemma_fundamental_div_mod, lemma_fundamental_div_mod_converse};
use crate::video::PixelProvider;

verus! {

#[derive(Debug, Clone, Copy, PartialEq, Eq, Structural)]
pub enum PixelFormat {
    BGR0,
    RGB0,
    RGB,
}

#[derive(Debug, Clone, Copy, PartialEq, Eq, Structural)]
pub struct TestCapturable {
    pub width: usize,
    pub height: usize,
    pub pixel_format: PixelFormat,
}

/// Number of gradient bands the picture is divided into.
pub const BANDS: usize = 120;

pub open spec fn bytes_per_pixel(f: PixelFormat) -> int {
    match f {
        PixelFormat::BGR0 => 4,
        PixelFormat::RGB0 => 4,
        PixelFormat::RGB => 3,
    }
}

/// Offsets of the red, green and blue byte inside one pixel.
pub open spec fn rgb_offsets(f: PixelFormat) -> (int, int, int) {
    match f {
        PixelFormat::BGR0 => (2, 1, 0),
        _ => (0, 1, 2),
    }
}

pub open spec fn full_if(on: bool) -> u8 {
    if on {
        255
    } else {
        0
    }
}

/// Byte at offset `ch` of a pixel in stripe `stripe` of the still image: the
/// blue, green and red channels are fully on according to bits 0, 1 and 2 of
/// the stripe number; any other byte is 0.
pub open spec fn default_channel(f: PixelFormat, stripe: usize, ch: int) -> u8 {
    let (r, g, b) = rgb_offsets(f);
    if ch == b {
        full_if(stripe & 1 != 0)
    } else if ch == g {
        full_if(stripe & 2 != 0)
    } else if ch == r {
        full_if(stripe & 4 != 0)
    } else {
        0
    }
}

/// Stripe (0 to 7) of column `x`.
pub open spec fn stripe_of(c: TestCapturable, x: int) -> usize {
    (x * 8 / c.width as int) as usize
}

/// Byte at offset `ch` of pixel `p` (row-major) of the still image.
pub open spec fn default_byte(c: TestCapturable, p: int, ch: int) -> u8 {
    default_channel(c.pixel_format, stripe_of(c, p % c.width as int), ch)
}

/// One gradient channel value for gradient phase `t`.
pub open spec fn gradient_level(t: int) -> u8 {
    ((t % BANDS as int) * 256 / BANDS as int) as u8
}

/// Byte at offset `ch` of pixel `p` inside the moving band of frame `i`: a
/// colour gradient across the width, shifted by `i`, with green and red a
/// third and two thirds of a period behind blue.
pub open spec fn gradient_byte(c: TestCapturable, i: int, p: int, ch: int) -> u8 {
    let t = i + BANDS as int * (p % c.width as int) / c.width as int;
    let (r, g, b) = rgb_offsets(c.pixel_format);
    if ch == b {
        gradient_level(t)
    } else if ch == g {
        gradient_level(t + BANDS as int / 3)
    } else if ch == r {
        gradient_level(t + 2 * BANDS as int / 3)
    } else {
        0
    }
}

pub open spec fn num_pixels(c: TestCapturable) -> int {
    c.width * c.height
}

pub open spec fn buffer_len(c: TestCapturable) -> int {
    num_pixels(c) * bytes_per_pixel(c.pixel_format)
}

/// The picture's buffer and the gradient arithmetic fit in a `usize`.
pub open spec fn well_sized(c: TestCapturable) -> bool {
    &&& buffer_len(c) <= usize::MAX
    &&& c.width * BANDS <= usize::MAX
}

/// Byte at offset `ch` of pixel `p` of a buffer laid out for `c`.
pub open spec fn pixel_byte(buf: Seq<u8>, c: TestCapturable, p: int, ch: int) -> u8 {
    buf[p * bytes_per_pixel(c.pixel_format) + ch]
}

/// Pixel `p` lies in rows `a` to `b` (exclusive) of a picture `w` wide.
pub open spec fn in_rows(p: int, a: int, b: int, w: int) -> bool {
    a * w <= p < b * w
}

/// Height in rows of one gradient band.
pub open spec fn band_height(c: TestCapturable) -> int {
    c.height as int / BANDS as int
}

/// Byte at offset `ch` of pixel `p` of the frame whose gradient is drawn in
/// band `j`: the gradient of frame `j` inside that band, the still image
/// everywhere else.
pub open spec fn band_frame_byte(c: TestCapturable, j: int, p: int, ch: int) -> u8 {
    if in_rows(p, j * band_height(c), (j + 1) * band_height(c), c.width as int) && ch < 3 {
        gradient_byte(c, j, p, ch)
    } else {
        default_byte(c, p, ch)
    }
}

/// `f` is the still image of `c`, of the length of its buffer.
pub open spec fn shows_still(c: TestCapturable, f: Seq<u8>) -> bool {
    &&& f.len() == buffer_len(c)
    &&& forall|p: int, ch: int|
        0 <= p < num_pixels(c) && 0 <= ch < bytes_per_pixel(c.pixel_format)
            ==> #[trigger] pixel_byte(f, c, p, ch) == default_byte(c, p, ch)
}

/// `f` is the still image of `c` with the gradient of frame `j` drawn in band
/// `j`, of the length of its buffer.
pub open spec fn shows_band(c: TestCapturable, f: Seq<u8>, j: int) -> bool {
    &&& f.len() == buffer_len(c)
    &&& forall|p: int, ch: int|
        0 <= p < num_pixels(c) && 0 <= ch < bytes_per_pixel(c.pixel_format)
            ==> #[trigger] pixel_byte(f, c, p, ch) == band_frame_byte(c, j, p, ch)
}

/// Two buffers laid out for `c` that agree on every byte of every pixel are
/// the same bytes.
pub proof fn lemma_same_pixels_same_frame(c: TestCapturable, f1: Seq<u8>, f2: Seq<u8>)
    requires
        f1.len() == buffer_len(c),
        f2.len() == buffer_len(c),
        forall|p: int, ch: int|
            0 <= p < num_pixels(c) && 0 <= ch < bytes_per_pixel(c.pixel_format)
                ==> #[trigger] pixel_byte(f1, c, p, ch) == pixel_byte(f2, c, p, ch),
    ensures
        f1 == f2,
{
    let ps = bytes_per_pixel(c.pixel_format);
    let n = num_pixels(c);
    assert forall|k: int| 0 <= k < f1.len() implies f1[k] == f2[k] by {
        let p = k / ps;
        let ch = k % ps;
        lemma_fundamental_div_mod(k, ps);
        assert(0 <= p < n) by (nonlinear_arith)
            requires
                k == ps * p + ch,
                0 <= ch < ps,
                0 <= k < n * ps,
                ps > 0,
        ;
        assert(p * ps + ch == k) by (nonlinear_arith)
            requires
                k == ps * p + ch,
        ;
        assert(pixel_byte(f1, c, p, ch) == pixel_byte(f2, c, p, ch));
    }
    assert(f1 =~= f2);
}

/// Every frame that shows the gradient in band `j` is the same: the frames
/// of the test source repeat once the band comes round again.
pub proof fn lemma_band_frame_is_unique(c: TestCapturable, f1: Seq<u8>, f2: Seq<u8>, j: int)
    requires
        shows_band(c, f1, j),
        shows_band(c, f2, j),
    ensures
        f1 == f2,
{
    lemma_same_pixels_same_frame(c, f1, f2);
}

proof fn lemma_byte_slots(p: int, q: int, c1: int, c2: int, ps: int)
    requires
        0 <= p,
        0 <= q,
        0 <= c1 < ps,
        0 <= c2 < ps,
        p * ps + c1 == q * ps + c2,
    ensures
        p == q,
        c1 == c2,
{
    if p < q {
        assert(p * ps + c1 < q * ps) by (nonlinear_arith)
            requires
                p < q,
                0 <= c1 < ps,
        ;
    } else if q < p {
        assert(q * ps + c2 < p * ps) by (nonlinear_arith)
            requires
                q < p,
                0 <= c2 < ps,
        ;
    }
}

proof fn lemma_slot_in_buffer(p: int, n: int, ch: int, ps: int)
    requires
        0 <= p < n,
        0 <= ch < ps,
    ensures
        0 <= p * ps + ch < n * ps,
{
    assert(0 <= p * ps + ch < n * ps) by (nonlinear_arith)
        requires
            0 <= p < n,
            0 <= ch < ps,
    ;
}

proof fn lemma_pixel_of(x: int, y: int, w: int)
    requires
        0 <= x < w,
        0 <= y,
    ensures
        (x + y * w) % w == x,
        (x + y * w) / w == y,
{
    lemma_fundamental_div_mod_converse(x + y * w, w, y, x);
}

proof fn lemma_rows_step(y: int, w: int)
    requires
        0 <= w,
    ensures
        (y + 1) * w == y * w + w,
{
    assert((y + 1) * w == y * w + w) by (nonlinear_arith);
}

impl TestCapturable {
    /// Bytes per pixel of the picture's format.
    pub fn pixel_size(&self) -> (r: usize)
        ensures
            r == bytes_per_pixel(self.pixel_format),
    {
        match self.pixel_format {
            PixelFormat::BGR0 => 4,
            PixelFormat::RGB0 => 4,
            PixelFormat::RGB => 3,
        }
    }

    /// Writes the still image's colour at column `x`, row `y` into `buf`,
    /// leaving every other byte as it was.
    pub fn set_default_pixel(&self, buf: &mut [u8], x: usize, y: usize)
        requires
            self.width > 0,
            x * 8 <= usize::MAX,
            (x + y * self.width) * bytes_per_pixel(self.pixel_format) + 3 <= old(buf)@.len(),
        ensures
            final(buf)@.len() == old(buf)@.len(),
            forall|k: int|
                0 <= k < old(buf)@.len() ==> #[trigger] final(buf)@[k] == ({
                    let pos = (x + y * self.width) * bytes_per_pixel(self.pixel_format);
                    if pos <= k < pos + 3 {
                        default_channel(self.pixel_format, ((x * 8) as int / self.width as int) as usize, k - pos)
                    } else {
                        old(buf)@[k]
                    }
                }),
    {
        let w = self.width;
        let ps = self.pixel_size();
        let blen = buf.len();
        assert(y * w <= usize::MAX && (x + y * w) * ps <= usize::MAX) by (nonlinear_arith)
            requires
                (x + y * w) * ps + 3 <= usize::MAX,
                ps >= 3,
                x >= 0,
                y >= 0,
                w > 0,
        ;
        let i = x * 8 / w;
        let pos = (x + y * w) * ps;
        let (pos_r, pos_g, pos_b) = match self.pixel_format {
            PixelFormat::BGR0 => (pos + 2, pos + 1, pos),
            PixelFormat::RGB0 | PixelFormat::RGB => (pos, pos + 1, pos + 2),
        };
        buf[pos_b] = if i & 1 != 0 {
            255
        } else {
            0
        };
        buf[pos_g] = if i & 2 != 0 {
            255
        } else {
            0
        };
        buf[pos_r] = if i & 4 != 0 {
            255
        } else {
            0
        };
    }
}

/// Whether a picture of this size can be held in memory: its buffer length
/// and its width times the number of bands fit in `usize`.
pub fn is_well_sized(c: &TestCapturable) -> (r: bool)
    ensures
        r == well_sized(*c),
{
    let ps: usize = c.pixel_size();
    match c.width.checked_mul(c.height) {
        None => {
            proof {
                vstd::arithmetic::mul::lemma_mul_increases(c.width as int, c.height as int);
                assert(c.width * c.height * ps >= c.width * c.height) by (nonlinear_arith)
                    requires
                        ps >= 3,
                        c.width * c.height >= 0,
                ;
            }
            false
        },
        Some(n) => match n.checked_mul(ps) {
            None => false,
            Some(_) => c.width.checked_mul(BANDS).is_some(),
        },
    }
}

/// Records the synthetic picture: keeps the current frame and the index of
/// the band the gradient is drawn in.
pub struct TestRecorder {
    capturable: TestCapturable,
    buf: Vec<u8>,
    i: usize,
}

impl TestRecorder {
    pub closed spec fn spec_capturable(&self) -> TestCapturable {
        self.capturable
    }

    /// The current frame.
    pub closed spec fn frame(&self) -> Seq<u8> {
        self.buf@
    }

    /// Index of the band the gradient was last drawn in.
    pub closed spec fn band(&self) -> int {
        self.i as int
    }

    pub closed spec fn wf(&self) -> bool {
        &&& well_sized(self.capturable)
        &&& self.buf@.len() == buffer_len(self.capturable)
        &&& self.i < BANDS
    }

    /// What every well-formed recorder keeps: a picture that fits in memory,
    /// a frame of the length of its buffer and a band index below `BANDS`.
    pub proof fn lemma_wf(&self)
        requires
            self.wf(),
        ensures
            well_sized(self.spec_capturable()),
            self.frame().len() == buffer_len(self.spec_capturable()),
            0 <= self.band() < BANDS,
    {
    }

    /// Draws the still image into rows `y0` to `y1` (exclusive).
    fn fill_rows_default(c: TestCapturable, buf: &mut Vec<u8>, y0: usize, y1: usize)
        requires
            well_sized(c),
            old(buf)@.len() == buffer_len(c),
            y0 <= y1 <= c.height,
        ensures
            final(buf)@.len() == buffer_len(c),
            forall|p: int, ch: int|
                0 <= p < num_pixels(c) && 0 <= ch < bytes_per_pixel(c.pixel_format)
                    ==> #[trigger] pixel_byte(final(buf)@, c, p, ch) == if in_rows(
                    p,
                    y0 as int,
                    y1 as int,
                    c.width as int,
                ) && ch < 3 {
                    default_byte(c, p, ch)
                } else {
                    pixel_byte(old(buf)@, c, p, ch)
                },
    {
        let w = c.width;
        let ghost ps = bytes_per_pixel(c.pixel_format);
        let ghost n = num_pixels(c);
        let ghost base = buf@;
        let mut y = y0;
        while y < y1
            invariant
                y0 <= y <= y1 <= c.height,
                w == c.width,
                ps == bytes_per_pixel(c.pixel_format),
                n == num_pixels(c),
                well_sized(c),
                buf@.len() == buffer_len(c),
                base.len() == buffer_len(c),
                forall|p: int, ch: int|
                    0 <= p < n && 0 <= ch < ps ==> #[trigger] pixel_byte(buf@, c, p, ch) == if y0
                        * w <= p < y * w && ch < 3 {
                        default_byte(c, p, ch)
                    } else {
                        pixel_byte(base, c, p, ch)
                    },
            decreases y1 - y,
        {
            let mut x: usize = 0;
            while x < w
                invariant
                    y0 <= y < y1 <= c.height,
                    x <= w,
                    w == c.width,
                    ps == bytes_per_pixel(c.pixel_format),
                    n == num_pixels(c),
                    well_sized(c),
                    buf@.len() == buffer_len(c),
                    base.len() == buffer_len(c),
                    forall|p: int, ch: int|
                        0 <= p < n && 0 <= ch < ps ==> #[trigger] pixel_byte(buf@, c, p, ch)
                            == if y0 * w <= p < y * w + x && ch < 3 {
                            default_byte(c, p, ch)
                        } else {
                            pixel_byte(base, c, p, ch)
                        },
                decreases w - x,
            {
                let ghost cur = x + y * w;
                let ghost before = buf@;
                proof {
                    lemma_pixel_of(x as int, y as int, w as int);
                    assert(cur < n) by (nonlinear_arith)
                        requires
                            cur == x + y * w,
                            x < w,
                            y < c.height,
                            n == w * c.height,
                    ;
                    assert(y0 * w <= y * w) by (nonlinear_arith)
                        requires
                            y0 <= y,
                    ;
                    lemma_slot_in_buffer(cur, n, ps - 1, ps);
                    assert(x * 8 <= usize::MAX) by (nonlinear_arith)
                        requires
                            x < w,
                            w * 120 <= usize::MAX,
                    ;
                }
                c.set_default_pixel(buf.as_mut_slice(), x, y);
                proof {
                    assert forall|p: int, ch: int|
                        0 <= p < n && 0 <= ch < ps implies #[trigger] pixel_byte(buf@, c, p, ch)
                        == if y0 * w <= p < y * w + x + 1 && ch < 3 {
                        default_byte(c, p, ch)
                    } else {
                        pixel_byte(base, c, p, ch)
                    } by {
                        lemma_slot_in_buffer(p, n, ch, ps);
                        let k = p * ps + ch;
                        let pos = cur * ps;
                        if pos <= k < pos + 3 {
                            lemma_byte_slots(p, cur, ch, k - pos, ps);
                        } else {
                            if p == cur && ch < 3 {
                                assert(false);
                            }
                            assert(pixel_byte(before, c, p, ch) == before[k]);
                        }
                    }
                }
                x = x + 1;
            }
            proof {
                lemma_rows_step(y as int, w as int);
            }
            y = y + 1;
        }
    }

    /// Draws the gradient of frame `i` into rows `y0` to `y1` (exclusive).
    fn fill_rows_gradient(c: TestCapturable, buf: &mut Vec<u8>, i: usize, y0: usize, y1: usize)
        requires
            well_sized(c),
            old(buf)@.len() == buffer_len(c),
            y0 <= y1 <= c.height,
            i < BANDS,
        ensures
            final(buf)@.len() == buffer_len(c),
            forall|p: int, ch: int|
                0 <= p < num_pixels(c) && 0 <= ch < bytes_per_pixel(c.pixel_format)
                    ==> #[trigger] pixel_byte(final(buf)@, c, p, ch) == if in_rows(
                    p,
                    y0 as int,
                    y1 as int,
                    c.width as int,
                ) && ch < 3 {
                    gradient_byte(c, i as int, p, ch)
                } else {
                    pixel_byte(old(buf)@, c, p, ch)
                },
    {
        let w = c.width;
        let ps = c.pixel_size();
        let ghost n = num_pixels(c);
        let ghost base = buf@;
        let mut y = y0;
        while y < y1
            invariant
                y0 <= y <= y1 <= c.height,
                i < BANDS,
                w == c.width,
                ps == bytes_per_pixel(c.pixel_format),
                n == num_pixels(c),
                well_sized(c),
                buf@.len() == buffer_len(c),
                base.len() == buffer_len(c),
                forall|p: int, ch: int|
                    0 <= p < n && 0 <= ch < ps ==> #[trigger] pixel_byte(buf@, c, p, ch) == if y0
                        * w <= p < y * w && ch < 3 {
                        gradient_byte(c, i as int, p, ch)
                    } else {
                        pixel_byte(base, c, p, ch)
                    },
            decreases y1 - y,
        {
            let mut x: usize = 0;
            while x < w
                invariant
                    y0 <= y < y1 <= c.height,
                    i < BANDS,
                    x <= w,
                    w == c.width,
                    ps == bytes_per_pixel(c.pixel_format),
                    n == num_pixels(c),
                    well_sized(c),
                    buf@.len() == buffer_len(c),
                    base.len() == buffer_len(c),
                    forall|p: int, ch: int|
                        0 <= p < n && 0 <= ch < ps ==> #[trigger] pixel_byte(buf@, c, p, ch)
                            == if y0 * w <= p < y * w + x && ch < 3 {
                            gradient_byte(c, i as int, p, ch)
                        } else {
                            pixel_byte(base, c, p, ch)
                        },
                decreases w - x,
            {
                let ghost cur = x + y * w;
                let ghost before = buf@;
                proof {
                    lemma_pixel_of(x as int, y as int, w as int);
                    assert(cur < n) by (nonlinear_arith)
                        requires
                            cur == x + y * w,
                            x < w,
                            y < c.height,
                            n == w * c.height,
                    ;
                    assert(y0 * w <= y * w) by (nonlinear_arith)
                        requires
                            y0 <= y,
                    ;
                    lemma_slot_in_buffer(cur, n, ps - 1, ps as int);
                    assert(x * 120 <= usize::MAX && y * w + x <= usize::MAX && (x + y * w) * ps
                        <= usize::MAX) by (nonlinear_arith)
                        requires
                            x < w,
                            w * 120 <= usize::MAX,
                            (x + y * w) * ps + ps <= n * ps,
                            n * ps <= usize::MAX,
                            ps >= 3,
                    ;
                }
                assert(((BANDS * x) as int / (w as int)) < (BANDS as int)) by (nonlinear_arith)
                    requires
                        x < w,
                ;
                let pos = (x + y * w) * ps;
                let t = i + BANDS * x / w;
                let (pos_r, pos_g, pos_b) = match c.pixel_format {
                    PixelFormat::BGR0 => (pos + 2, pos + 1, pos),
                    PixelFormat::RGB0 | PixelFormat::RGB => (pos, pos + 1, pos + 2),
                };
                buf[pos_b] = (t % BANDS * 256 / BANDS) as u8;
                buf[pos_g] = ((t + BANDS / 3) % BANDS * 256 / BANDS) as u8;
                buf[pos_r] = ((t + 2 * BANDS / 3) % BANDS * 256 / BANDS) as u8;
                proof {
                    assert forall|p: int, ch: int|
                        0 <= p < n && 0 <= ch < ps implies #[trigger] pixel_byte(buf@, c, p, ch)
                        == if y0 * w <= p < y * w + x + 1 && ch < 3 {
                        gradient_byte(c, i as int, p, ch)
                    } else {
                        pixel_byte(base, c, p, ch)
                    } by {
                        lemma_slot_in_buffer(p, n, ch, ps as int);
                        let k = p * ps + ch;
                        if pos <= k < pos + 3 {
                            lemma_byte_slots(p, cur, ch, k - pos, ps as int);
                        } else {
                            if p == cur && ch < 3 {
                                assert(false);
                            }
                            assert(pixel_byte(before, c, p, ch) == before[k]);
                        }
                    }
                }
                x = x + 1;
            }
            proof {
                lemma_rows_step(y as int, w as int);
            }
            y = y + 1;
        }
    }

    /// A recorder whose first frame is the still image.
    pub fn new(capturable: TestCapturable) -> (r: Self)
        requires
            well_sized(capturable),
        ensures
            r.wf(),
            r.spec_capturable() == capturable,
            r.band() == 0,
            r.frame().len() == buffer_len(capturable),
            shows_still(capturable, r.frame()),
            forall|p: int, ch: int|
                0 <= p < num_pixels(capturable) && 0 <= ch < bytes_per_pixel(
                    capturable.pixel_format,
                ) ==> #[trigger] pixel_byte(r.frame(), capturable, p, ch) == default_byte(
                    capturable,
                    p,
                    ch,
                ),
    {
        let ps = capturable.pixel_size();
        proof {
            assert(capturable.width * capturable.height <= usize::MAX) by (nonlinear_arith)
                requires
                    capturable.width * capturable.height * ps <= usize::MAX,
                    ps >= 3,
            ;
        }
        let len = capturable.width * capturable.height * ps;
        let mut buf: Vec<u8> = vec![0; len];
        let ghost zeros = buf@;
        Self::fill_rows_default(capturable, &mut buf, 0, capturable.height);
        proof {
            let c = capturable;
            assert forall|p: int, ch: int|
                0 <= p < num_pixels(c) && 0 <= ch < bytes_per_pixel(c.pixel_format)
                    implies #[trigger] pixel_byte(buf@, c, p, ch) == default_byte(c, p, ch) by {
                lemma_slot_in_buffer(p, num_pixels(c), ch, bytes_per_pixel(c.pixel_format));
                assert(p < c.height * c.width) by (nonlinear_arith)
                    requires
                        p < c.width * c.height,
                ;
                assert(in_rows(p, 0, c.height as int, c.width as int));
                assert(zeros[p * bytes_per_pixel(c.pixel_format) + ch] == 0);
            }
        }
        TestRecorder { capturable, buf, i: 0 }
    }

    /// Moves the gradient band one band down (wrapping around): the rows of
    /// the previous band get the still image back, the rows of the next band
    /// get the gradient of the new frame index.
    pub fn advance(&mut self)
        requires
            old(self).wf(),
        ensures
            final(self).wf(),
            final(self).spec_capturable() == old(self).spec_capturable(),
            final(self).band() == (old(self).band() + 1) % BANDS as int,
            final(self).frame().len() == buffer_len(final(self).spec_capturable()),
            shows_still(old(self).spec_capturable(), old(self).frame()) || shows_band(
                old(self).spec_capturable(),
                old(self).frame(),
                old(self).band(),
            ) ==> shows_band(final(self).spec_capturable(), final(self).frame(), final(self).band()),
            forall|p: int, ch: int|
                0 <= p < num_pixels(old(self).spec_capturable()) && 0 <= ch < bytes_per_pixel(
                    old(self).spec_capturable().pixel_format,
                ) ==> #[trigger] pixel_byte(final(self).frame(), old(self).spec_capturable(), p, ch)
                    == ({
                    let c = old(self).spec_capturable();
                    let dh = band_height(c);
                    let w = c.width as int;
                    let old_i = old(self).band();
                    let new_i = final(self).band();
                    if in_rows(p, new_i * dh, (new_i + 1) * dh, w) && ch < 3 {
                        gradient_byte(c, new_i, p, ch)
                    } else if in_rows(p, old_i * dh, (old_i + 1) * dh, w) && ch < 3 {
                        default_byte(c, p, ch)
                    } else {
                        pixel_byte(old(self).frame(), c, p, ch)
                    }
                }),
    {
        let c = self.capturable;
        let dh = c.height / BANDS;
        let old_i = self.i;
        assert(old_i * dh <= (old_i + 1) * dh <= c.height) by (nonlinear_arith)
            requires
                old_i < BANDS,
                dh == c.height / BANDS,
        ;
        Self::fill_rows_default(c, &mut self.buf, old_i * dh, (old_i + 1) * dh);
        let new_i = (old_i + 1) % BANDS;
        assert(new_i * dh <= (new_i + 1) * dh <= c.height) by (nonlinear_arith)
            requires
                new_i < BANDS,
                dh == c.height / BANDS,
        ;
        Self::fill_rows_gradient(c, &mut self.buf, new_i, new_i * dh, (new_i + 1) * dh);
        self.i = new_i;
    }

    /// The current frame, in the picture's pixel format.
    pub fn pixels(&self) -> (p: PixelProvider<'_>)
        ensures
            ({
                let c = self.spec_capturable();
                match p {
                    PixelProvider::BGR0(w, h, b) => c.pixel_format == PixelFormat::BGR0 && w
                        == c.width && h == c.height && b@ == self.frame(),
                    PixelProvider::RGB0(w, h, b) => c.pixel_format == PixelFormat::RGB0 && w
                        == c.width && h == c.height && b@ == self.frame(),
                    PixelProvider::RGB(w, h, b) => c.pixel_format == PixelFormat::RGB && w
                        == c.width && h == c.height && b@ == self.frame(),
                    PixelProvider::BGR0S(..) => false,
                }
            }),
    {
        match self.capturable.pixel_format {
            PixelFormat::BGR0 => PixelProvider::BGR0(
                self.capturable.width,
                self.capturable.height,
                self.buf.as_slice(),
            ),
            PixelFormat::RGB0 => PixelProvider::RGB0(
                self.capturable.width,
                self.capturable.height,
                self.buf.as_slice(),
            ),
            PixelFormat::RGB => PixelProvider::RGB(
                self.capturable.width,
                self.capturable.height,
                self.buf.as_slice(),
            ),
        }
    }
}

} // verus!
