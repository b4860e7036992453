//! Frames pulled from a PipeWire stream: format, size check and cropping of
//! 4-byte-per-pixel buffers.

use vstd::prelude::*;
use crate::video::PixelProvider;

verus! {

/// Byte order of a captured 32-bit pixel.
#[derive(Debug, Clone, Copy, PartialEq, Eq, Structural)]
pub enum FrameFormat {
    /// `BGRx`: blue, green, red, unused.
    Bgrx,
    /// `RGBx`: red, green, blue, unused.
    Rgbx,
}

/// The format named by a stream's caps, if it is one the capture asks for.
pub fn frame_format(name: &str) -> (f: Option<FrameFormat>)
    ensures
        name@ == "BGRx"@ ==> f == Some(FrameFormat::Bgrx),
        name@ == "RGBx"@ ==> f == Some(FrameFormat::Rgbx),
        name@ != "BGRx"@ && name@ != "RGBx"@ ==> f is None,
{
    proof {
        reveal_strlit("BGRx");
        reveal_strlit("RGBx");
        assert("BGRx"@[0] != "RGBx"@[0]);
    }
    if crate::text::str_equal(name, "BGRx") {
        Some(FrameFormat::Bgrx)
    } else if crate::text::str_equal(name, "RGBx") {
        Some(FrameFormat::Rgbx)
    } else {
        None
    }
}

/// A buffer is usable only when it holds exactly `width * height` pixels of
/// four bytes; the caps do not guarantee this.
pub fn buffer_size_matches(buf_size: usize, width: usize, height: usize) -> (r: bool)
    requires
        width * height * 4 <= usize::MAX,
    ensures
        r == (buf_size == width * height * 4),
{
    proof {
        vstd::arithmetic::mul::lemma_mul_nonnegative(width as int, height as int);
    }
    buf_size == width * height * 4
}

/// The crop rectangle `(x, y, width, height)` to apply, if any: a crop that
/// covers the whole `width` by `height` frame is no crop.
pub fn effective_crop(width: u32, height: u32, crop: Option<(u32, u32, u32, u32)>) -> (r: Option<
    (u32, u32, u32, u32),
>)
    ensures
        r == (if crop == Some((0u32, 0u32, width, height)) {
            None
        } else {
            crop
        }),
{
    match crop {
        Some((x, y, w, h)) => {
            if x == 0 && y == 0 && w == width && h == height {
                None
            } else {
                crop
            }
        },
        None => None,
    }
}

/// The bytes of row `r` of the crop: `4 * w_crop` bytes starting at pixel
/// `(x_off, y_off + r)` of a frame `width` pixels wide.
pub open spec fn crop_row(data: Seq<u8>, width: int, x_off: int, y_off: int, w_crop: int, r: int) -> Seq<
    u8,
> {
    let start = 4 * (width * (y_off + r) + x_off);
    data.subrange(start, start + 4 * w_crop)
}

/// The first `rows` rows of the crop, one after the other.
pub open spec fn cropped(data: Seq<u8>, width: int, x_off: int, y_off: int, w_crop: int, rows: int) -> Seq<
    u8,
>
    decreases rows,
{
    if rows <= 0 {
        Seq::empty()
    } else {
        cropped(data, width, x_off, y_off, w_crop, rows - 1) + crop_row(
            data,
            width,
            x_off,
            y_off,
            w_crop,
            rows - 1,
        )
    }
}

/// The crop lies inside the frame and inside the buffer.
pub open spec fn crop_fits(
    data_len: int,
    width: int,
    x_off: int,
    y_off: int,
    w_crop: int,
    h_crop: int,
) -> bool {
    &&& x_off + w_crop <= width
    &&& h_crop > 0 ==> 4 * (width * (y_off + h_crop - 1) + x_off + w_crop) <= data_len
}

proof fn lemma_row_start_monotonic(width: int, x_off: int, y_off: int, w_crop: int, r: int, h: int)
    requires
        0 <= width,
        0 <= x_off,
        0 <= y_off,
        0 <= w_crop,
        x_off + w_crop <= width,
        0 <= r < h,
    ensures
        width * (y_off + r) + x_off + w_crop <= width * (y_off + h - 1) + x_off + w_crop,
        0 <= width * (y_off + r),
{
    vstd::arithmetic::mul::lemma_mul_inequality(y_off + r, y_off + h - 1, width);
    vstd::arithmetic::mul::lemma_mul_is_commutative(y_off + r, width);
    vstd::arithmetic::mul::lemma_mul_is_commutative(y_off + h - 1, width);
    vstd::arithmetic::mul::lemma_mul_nonnegative(width, y_off + r);
}

proof fn lemma_cropped_len(data: Seq<u8>, width: int, x_off: int, y_off: int, w_crop: int, rows: int)
    requires
        0 <= width,
        0 <= x_off,
        0 <= y_off,
        0 <= w_crop,
        0 <= rows,
        crop_fits(data.len() as int, width, x_off, y_off, w_crop, rows),
    ensures
        cropped(data, width, x_off, y_off, w_crop, rows).len() == 4 * w_crop * rows,
    decreases rows,
{
    if rows > 0 {
        lemma_row_start_monotonic(width, x_off, y_off, w_crop, rows - 1, rows);
        if rows > 1 {
            lemma_row_start_monotonic(width, x_off, y_off, w_crop, rows - 2, rows);
        }
        lemma_cropped_len(data, width, x_off, y_off, w_crop, rows - 1);
        let start = 4 * (width * (y_off + rows - 1) + x_off);
        assert(start + 4 * w_crop == 4 * (width * (y_off + rows - 1) + x_off + w_crop));
        assert(0 <= start);
        assert(start + 4 * w_crop <= data.len());
        assert(crop_row(data, width, x_off, y_off, w_crop, rows - 1) == data.subrange(start, start + 4 * w_crop));
        assert(crop_row(data, width, x_off, y_off, w_crop, rows - 1).len() == 4 * w_crop);
        assert(cropped(data, width, x_off, y_off, w_crop, rows) == cropped(data, width, x_off, y_off, w_crop, rows - 1) + crop_row(data, width, x_off, y_off, w_crop, rows - 1));
        assert(4 * w_crop * rows == 4 * w_crop * (rows - 1) + 4 * w_crop) by (nonlinear_arith);
    } else {
        assert(4 * w_crop * rows == 0) by (nonlinear_arith)
            requires
                rows == 0,
        ;
    }
}

/// Copies the crop `(x_off, y_off, w_crop, h_crop)` of a 4-byte-per-pixel
/// frame `width` pixels wide into `out`, row by row, replacing what `out`
/// held.
pub fn crop_into(
    data: &[u8],
    width: usize,
    x_off: usize,
    y_off: usize,
    w_crop: usize,
    h_crop: usize,
    out: &mut Vec<u8>,
)
    requires
        crop_fits(data@.len() as int, width as int, x_off as int, y_off as int, w_crop as int, h_crop as int),
        y_off + h_crop <= usize::MAX,
    ensures
        final(out)@ == cropped(data@, width as int, x_off as int, y_off as int, w_crop as int, h_crop as int),
{
    out.clear();
    let n = data.len();
    let mut r: usize = 0;
    while r < h_crop
        invariant
            r <= h_crop,
            n == data@.len(),
            y_off + h_crop <= usize::MAX,
            crop_fits(data@.len() as int, width as int, x_off as int, y_off as int, w_crop as int, h_crop as int),
            out@ == cropped(data@, width as int, x_off as int, y_off as int, w_crop as int, r as int),
        decreases h_crop - r,
    {
        proof {
            lemma_row_start_monotonic(width as int, x_off as int, y_off as int, w_crop as int, r as int, h_crop as int);
            assert(4 * (width * (y_off + r) + x_off + w_crop) <= data@.len());
        }
        let start = 4 * (width * (y_off + r) + x_off);
        let end = start + 4 * w_crop;
        let ghost before = out@;
        let mut i = start;
        while i < end
            invariant
                start <= i <= end,
                end <= data@.len(),
                out@ == before + data@.subrange(start as int, i as int),
            decreases end - i,
        {
            out.push(data[i]);
            i = i + 1;
            assert(out@ =~= before + data@.subrange(start as int, i as int));
        }
        r = r + 1;
    }
}

/// A crop of `w_crop` by `h_crop` pixels holds four bytes for each of them.
pub proof fn crop_has_rectangle_size(
    data: Seq<u8>,
    width: int,
    x_off: int,
    y_off: int,
    w_crop: int,
    h_crop: int,
)
    requires
        0 <= width,
        0 <= x_off,
        0 <= y_off,
        0 <= w_crop,
        0 <= h_crop,
        crop_fits(data.len() as int, width, x_off, y_off, w_crop, h_crop),
    ensures
        cropped(data, width, x_off, y_off, w_crop, h_crop).len() == 4 * w_crop * h_crop,
{
    lemma_cropped_len(data, width, x_off, y_off, w_crop, h_crop);
}

/// Pixel `(c, r)` of the crop is pixel `(x_off + c, y_off + r)` of the frame,
/// byte for byte.
pub proof fn crop_keeps_pixels(
    data: Seq<u8>,
    width: int,
    x_off: int,
    y_off: int,
    w_crop: int,
    h_crop: int,
    r: int,
    c: int,
    k: int,
)
    requires
        0 <= width,
        0 <= x_off,
        0 <= y_off,
        0 <= w_crop,
        crop_fits(data.len() as int, width, x_off, y_off, w_crop, h_crop),
        0 <= r < h_crop,
        0 <= c < w_crop,
        0 <= k < 4,
    ensures
        cropped(data, width, x_off, y_off, w_crop, h_crop)[4 * (w_crop * r + c) + k] == data[4 * (
        width * (y_off + r) + x_off + c) + k],
    decreases h_crop,
{
    lemma_row_start_monotonic(width, x_off, y_off, w_crop, r, h_crop);
    lemma_row_start_monotonic(width, x_off, y_off, w_crop, h_crop - 1, h_crop);
    if h_crop > 1 {
        lemma_row_start_monotonic(width, x_off, y_off, w_crop, h_crop - 2, h_crop);
    }
    lemma_cropped_len(data, width, x_off, y_off, w_crop, h_crop - 1);
    let prev = cropped(data, width, x_off, y_off, w_crop, h_crop - 1);
    let row = crop_row(data, width, x_off, y_off, w_crop, h_crop - 1);
    assert(cropped(data, width, x_off, y_off, w_crop, h_crop) == prev + row);
    if r < h_crop - 1 {
        crop_keeps_pixels(data, width, x_off, y_off, w_crop, h_crop - 1, r, c, k);
        assert(4 * (w_crop * r + c) + k < 4 * w_crop * (h_crop - 1)) by (nonlinear_arith)
            requires
                0 <= r < h_crop - 1,
                0 <= c < w_crop,
                0 <= k < 4,
        ;
    } else {
        assert(4 * (w_crop * r + c) + k == 4 * w_crop * (h_crop - 1) + 4 * c + k) by (nonlinear_arith)
            requires
                r == h_crop - 1,
        ;
    }
}

/// The frame handed to the encoder for a buffer in `format`.
pub fn provider_for(format: FrameFormat, width: usize, height: usize, buf: &[u8]) -> (p: PixelProvider<'_>)
    ensures
        format == FrameFormat::Bgrx ==> p == PixelProvider::BGR0(width, height, buf),
        format == FrameFormat::Rgbx ==> p == PixelProvider::RGB0(width, height, buf),
{
    match format {
        FrameFormat::Bgrx => PixelProvider::BGR0(width, height, buf),
        FrameFormat::Rgbx => PixelProvider::RGB0(width, height, buf),
    }
}

/// One sample pulled from the stream: its caps' format and size, its bytes
/// and its crop metadata.
pub struct Sample {
    pub format: FrameFormat,
    pub width: u32,
    pub height: u32,
    pub data: Vec<u8>,
    pub crop: Option<(u32, u32, u32, u32)>,
}

/// The crop `effective_crop` keeps.
pub open spec fn spec_effective_crop(width: u32, height: u32, crop: Option<(u32, u32, u32, u32)>) -> Option<
    (u32, u32, u32, u32),
> {
    if crop == Some((0u32, 0u32, width, height)) {
        None
    } else {
        crop
    }
}

/// The sample's size arithmetic fits in a `usize` and, when its buffer has
/// the size the caps announce, its crop lies inside it.
pub open spec fn sample_fits(s: Sample) -> bool {
    &&& s.width * s.height * 4 <= usize::MAX
    &&& s.data@.len() == s.width * s.height * 4 ==> match spec_effective_crop(
        s.width,
        s.height,
        s.crop,
    ) {
        Some((x, y, w, h)) => y + h <= usize::MAX && crop_fits(
            s.data@.len() as int,
            s.width as int,
            x as int,
            y as int,
            w as int,
            h as int,
        ),
        None => true,
    }
}

/// The last usable frame of a stream, kept so that a dropped or missing
/// sample falls back to the previous frame.
pub struct FrameStore {
    format: FrameFormat,
    width: usize,
    height: usize,
    frame: Vec<u8>,
    has_frame: bool,
}

impl FrameStore {
    pub closed spec fn spec_format(&self) -> FrameFormat {
        self.format
    }

    pub closed spec fn spec_width(&self) -> usize {
        self.width
    }

    pub closed spec fn spec_height(&self) -> usize {
        self.height
    }

    /// The bytes of the kept frame.
    pub closed spec fn spec_frame(&self) -> Seq<u8> {
        self.frame@
    }

    /// Whether a usable sample has arrived yet.
    pub closed spec fn spec_has_frame(&self) -> bool {
        self.has_frame
    }

    /// No frame yet.
    pub fn new() -> (r: Self)
        ensures
            !r.spec_has_frame(),
            r.spec_frame() == Seq::<u8>::empty(),
            r.spec_width() == 0,
            r.spec_height() == 0,
            r.spec_format() == FrameFormat::Bgrx,
    {
        FrameStore { format: FrameFormat::Bgrx, width: 0, height: 0, frame: Vec::new(), has_frame: false }
    }

    /// Takes the sample pulled from the stream, if one was, and hands out the
    /// frame to encode, or `None` while no usable sample has arrived. A
    /// sample's format always replaces the kept one; a sample whose buffer
    /// does not hold `width * height` four-byte pixels is dropped and the
    /// previous frame is kept; otherwise the frame becomes the sample's
    /// buffer, cut to its crop when the crop does not cover it all.
    pub fn take_sample(&mut self, sample: Option<Sample>) -> (r: Option<PixelProvider<'_>>)
        requires
            sample matches Some(s) ==> sample_fits(s),
        ensures
            match sample {
                None => final(self).spec_format() == old(self).spec_format()
                    && final(self).spec_width() == old(self).spec_width()
                    && final(self).spec_height() == old(self).spec_height()
                    && final(self).spec_frame() == old(self).spec_frame()
                    && final(self).spec_has_frame() == old(self).spec_has_frame(),
                Some(s) => final(self).spec_format() == s.format && if s.data@.len() == s.width
                    * s.height * 4 {
                    &&& final(self).spec_has_frame()
                    &&& match spec_effective_crop(s.width, s.height, s.crop) {
                        None => final(self).spec_frame() == s.data@ && final(self).spec_width()
                            == s.width && final(self).spec_height() == s.height,
                        Some((x, y, w, h)) => final(self).spec_frame() == cropped(
                            s.data@,
                            s.width as int,
                            x as int,
                            y as int,
                            w as int,
                            h as int,
                        ) && final(self).spec_width() == w && final(self).spec_height() == h,
                    }
                } else {
                    &&& final(self).spec_width() == old(self).spec_width()
                    &&& final(self).spec_height() == old(self).spec_height()
                    &&& final(self).spec_frame() == old(self).spec_frame()
                    &&& final(self).spec_has_frame() == old(self).spec_has_frame()
                },
            },
            r is Some <==> final(self).spec_has_frame(),
            r matches Some(p) ==> match p {
                PixelProvider::BGR0(w, h, b) => final(self).spec_format() == FrameFormat::Bgrx
                    && w == final(self).spec_width() && h == final(self).spec_height() && b@
                    == final(self).spec_frame(),
                PixelProvider::RGB0(w, h, b) => final(self).spec_format() == FrameFormat::Rgbx
                    && w == final(self).spec_width() && h == final(self).spec_height() && b@
                    == final(self).spec_frame(),
                _ => false,
            },
    {
        match sample {
            None => {},
            Some(s) => {
                self.format = s.format;
                let w = s.width as usize;
                let h = s.height as usize;
                if buffer_size_matches(s.data.len(), w, h) {
                    match effective_crop(s.width, s.height, s.crop) {
                        Some((x, y, cw, ch)) => {
                            crop_into(
                                s.data.as_slice(),
                                w,
                                x as usize,
                                y as usize,
                                cw as usize,
                                ch as usize,
                                &mut self.frame,
                            );
                            self.width = cw as usize;
                            self.height = ch as usize;
                        },
                        None => {
                            self.frame = s.data;
                            self.width = w;
                            self.height = h;
                        },
                    }
                    self.has_frame = true;
                }
            },
        }
        if self.has_frame {
            Some(provider_for(self.format, self.width, self.height, self.frame.as_slice()))
        } else {
            None
        }
    }
}

} // verus!
