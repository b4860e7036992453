//! Sources of screen images: the recorder interface, the desktop sources of
//! the different platforms and the synthetic test sources.

use vstd::prelude::*;
use crate::testsrc::{
    band_height, buffer_len, bytes_per_pixel, default_byte, gradient_byte, in_rows, num_pixels, pixel_byte,
    shows_band, shows_still, well_sized, PixelFormat, TestCapturable, TestRecorder,
};
use crate::text::{decimal, signed_decimal, u64_to_string, i64_to_string};
use crate::video::PixelProvider;

verus! {

/// Why a frame could not be captured.
pub struct CaptureError {
    pub message: String,
}

/// Something that captures frames of a capturable.
pub trait Recorder {
    /// Whether the recorder can capture.
    spec fn ready(&self) -> bool;

    /// Captures the next frame.
    fn capture(&mut self) -> Result<PixelProvider<'_>, CaptureError>
        requires
            old(self).ready(),
    ;
}

impl TestRecorder {
    /// Moves the test picture on by one band and hands out the new frame.
    pub fn next_frame(&mut self) -> (p: PixelProvider<'_>)
        requires
            old(self).wf(),
        ensures
            final(self).wf(),
            final(self).spec_capturable() == old(self).spec_capturable(),
            final(self).band() == (old(self).band() + 1) % crate::testsrc::BANDS as int,
            final(self).frame().len() == buffer_len(final(self).spec_capturable()),
            shows_still(old(self).spec_capturable(), old(self).frame()) || shows_band(
                old(self).spec_capturable(),
                old(self).frame(),
                old(self).band(),
            ) ==> shows_band(final(self).spec_capturable(), final(self).frame(), final(self).band()),
            forall|p: int, ch: int|
                0 <= p < num_pixels(old(self).spec_capturable()) && 0 <= ch < bytes_per_pixel(
                    old(self).spec_capturable().pixel_format,
                ) ==> #[trigger] pixel_byte(final(self).frame(), old(self).spec_capturable(), p, ch)
                    == ({
                    let c = old(self).spec_capturable();
                    let dh = band_height(c);
                    let w = c.width as int;
                    let old_i = old(self).band();
                    let new_i = final(self).band();
                    if in_rows(p, new_i * dh, (new_i + 1) * dh, w) && ch < 3 {
                        gradient_byte(c, new_i, p, ch)
                    } else if in_rows(p, old_i * dh, (old_i + 1) * dh, w) && ch < 3 {
                        default_byte(c, p, ch)
                    } else {
                        pixel_byte(old(self).frame(), c, p, ch)
                    }
                }),
            ({
                let c = final(self).spec_capturable();
                match p {
                    PixelProvider::BGR0(w, h, b) => c.pixel_format == PixelFormat::BGR0 && w
                        == c.width && h == c.height && b@ == final(self).frame(),
                    PixelProvider::RGB0(w, h, b) => c.pixel_format == PixelFormat::RGB0 && w
                        == c.width && h == c.height && b@ == final(self).frame(),
                    PixelProvider::RGB(w, h, b) => c.pixel_format == PixelFormat::RGB && w
                        == c.width && h == c.height && b@ == final(self).frame(),
                    PixelProvider::BGR0S(..) => false,
                }
            }),
    {
        self.advance();
        self.pixels()
    }
}

impl Recorder for TestRecorder {
    open spec fn ready(&self) -> bool {
        self.wf()
    }

    fn capture(&mut self) -> (r: Result<PixelProvider<'_>, CaptureError>)
        ensures
            final(self).wf(),
            final(self).spec_capturable() == old(self).spec_capturable(),
            final(self).band() == (old(self).band() + 1) % crate::testsrc::BANDS as int,
            final(self).frame().len() == buffer_len(final(self).spec_capturable()),
            shows_still(old(self).spec_capturable(), old(self).frame()) || shows_band(
                old(self).spec_capturable(),
                old(self).frame(),
                old(self).band(),
            ) ==> shows_band(final(self).spec_capturable(), final(self).frame(), final(self).band()),
            forall|p: int, ch: int|
                0 <= p < num_pixels(old(self).spec_capturable()) && 0 <= ch < bytes_per_pixel(
                    old(self).spec_capturable().pixel_format,
                ) ==> #[trigger] pixel_byte(final(self).frame(), old(self).spec_capturable(), p, ch)
                    == ({
                    let c = old(self).spec_capturable();
                    let dh = band_height(c);
                    let w = c.width as int;
                    let old_i = old(self).band();
                    let new_i = final(self).band();
                    if in_rows(p, new_i * dh, (new_i + 1) * dh, w) && ch < 3 {
                        gradient_byte(c, new_i, p, ch)
                    } else if in_rows(p, old_i * dh, (old_i + 1) * dh, w) && ch < 3 {
                        default_byte(c, p, ch)
                    } else {
                        pixel_byte(old(self).frame(), c, p, ch)
                    }
                }),
            ({
                let c = final(self).spec_capturable();
                match r {
                    Ok(PixelProvider::BGR0(w, h, b)) => c.pixel_format == PixelFormat::BGR0 && w
                        == c.width && h == c.height && b@ == final(self).frame(),
                    Ok(PixelProvider::RGB0(w, h, b)) => c.pixel_format == PixelFormat::RGB0 && w
                        == c.width && h == c.height && b@ == final(self).frame(),
                    Ok(PixelProvider::RGB(w, h, b)) => c.pixel_format == PixelFormat::RGB && w
                        == c.width && h == c.height && b@ == final(self).frame(),
                    Ok(PixelProvider::BGR0S(..)) => false,
                    Err(_) => false,
                }
            }),
    {
        Ok(self.next_frame())
    }
}

/// Sizes of the synthetic test sources offered when debugging.
pub open spec fn test_source_sizes() -> Seq<(usize, usize)> {
    seq![(200usize, 200usize), (800, 600), (1080, 720), (1920, 1080), (3840, 2160), (15360, 2160)]
}

/// One synthetic test source of each debugging size, in `pixel_format`.
pub fn test_capturables(pixel_format: PixelFormat) -> (v: Vec<TestCapturable>)
    ensures
        v@.len() == test_source_sizes().len(),
        forall|i: int|
            0 <= i < v@.len() ==> v@[i] == (TestCapturable {
                width: test_source_sizes()[i].0,
                height: test_source_sizes()[i].1,
                pixel_format,
            }),
{
    let sizes: [(usize, usize); 6] = [
        (200, 200),
        (800, 600),
        (1080, 720),
        (1920, 1080),
        (3840, 2160),
        (15360, 2160),
    ];
    let mut v: Vec<TestCapturable> = Vec::new();
    let mut i: usize = 0;
    while i < 6
        invariant
            i <= 6,
            sizes@ == test_source_sizes(),
            v@.len() == i,
            forall|j: int|
                0 <= j < i ==> v@[j] == (TestCapturable {
                    width: test_source_sizes()[j].0,
                    height: test_source_sizes()[j].1,
                    pixel_format,
                }),
        decreases 6 - i,
    {
        let (width, height) = sizes[i];
        v.push(TestCapturable { width, height, pixel_format });
        i = i + 1;
    }
    v
}

pub open spec fn pixel_format_name(f: PixelFormat) -> Seq<char> {
    match f {
        PixelFormat::BGR0 => "BGR0"@,
        PixelFormat::RGB0 => "RGB0"@,
        PixelFormat::RGB => "RGB"@,
    }
}

impl TestCapturable {
    /// `Test Source <width>x<height>@<format>`.
    pub fn name(&self) -> (s: String)
        ensures
            s@ == "Test Source "@ + decimal(self.width as nat) + "x"@ + decimal(self.height as nat)
                + "@"@ + pixel_format_name(self.pixel_format),
    {
        let mut s = String::from_str("Test Source ");
        let w = u64_to_string(self.width as u64);
        s.append(w.as_str());
        s.append("x");
        let h = u64_to_string(self.height as u64);
        s.append(h.as_str());
        s.append("@");
        match self.pixel_format {
            PixelFormat::BGR0 => s.append("BGR0"),
            PixelFormat::RGB0 => s.append("RGB0"),
            PixelFormat::RGB => s.append("RGB"),
        }
        s
    }

    /// A recorder for this source.
    pub fn recorder(&self) -> (r: TestRecorder)
        requires
            well_sized(*self),
        ensures
            r.wf(),
            r.spec_capturable() == *self,
            r.band() == 0,
            r.frame().len() == buffer_len(*self),
            shows_still(*self, r.frame()),
            forall|p: int, ch: int|
                0 <= p < num_pixels(*self) && 0 <= ch < bytes_per_pixel(self.pixel_format)
                    ==> #[trigger] pixel_byte(r.frame(), *self, p, ch) == default_byte(*self, p, ch),
    {
        TestRecorder::new(*self)
    }
}

/// The whole desktop as one capturable.
#[derive(Debug, Clone, Copy, PartialEq, Eq, Structural)]
pub struct AutoPilotCapturable {}

impl AutoPilotCapturable {
    pub fn new() -> (c: Self)
        ensures
            c == (AutoPilotCapturable {}),
    {
        AutoPilotCapturable {}
    }

    pub fn name(&self) -> (s: String)
        ensures
            s@ == "Desktop (autopilot)"@,
    {
        String::from_str("Desktop (autopilot)")
    }

    /// A recorder of the desktop.
    pub fn recorder(&self) -> (r: RecorderAutoPilot)
        ensures
            r.image() == Seq::<u8>::empty(),
    {
        RecorderAutoPilot::new()
    }
}

/// Keeps the last RGB screenshot of the desktop.
pub struct RecorderAutoPilot {
    img: Vec<u8>,
}

impl RecorderAutoPilot {
    pub closed spec fn image(&self) -> Seq<u8> {
        self.img@
    }

    /// No screenshot yet.
    pub fn new() -> (r: Self)
        ensures
            r.image() == Seq::<u8>::empty(),
    {
        RecorderAutoPilot { img: Vec::new() }
    }

    /// Keeps a screenshot of `width` by `height` RGB pixels and hands it out
    /// as the frame.
    pub fn store(&mut self, width: usize, height: usize, rgb: Vec<u8>) -> (p: PixelProvider<'_>)
        ensures
            final(self).image() == rgb@,
            p matches PixelProvider::RGB(w, h, b) && w == width && h == height && b@ == rgb@,
    {
        self.img = rgb;
        PixelProvider::RGB(width, height, self.img.as_slice())
    }
}

/// An error of the Windows screen capture.
pub struct CaptrsError(pub String);

/// The message a failed frame capture on Windows reports.
pub fn captrs_capture_failed() -> (e: CaptrsError)
    ensures
        e.0@ == "Captrs failed to capture frame"@,
{
    CaptrsError(String::from_str("Captrs failed to capture frame"))
}

/// A rectangle given by its edges, as Windows reports monitors.
#[derive(Debug, Clone, Copy, PartialEq, Eq, Structural)]
pub struct ScreenRect {
    pub left: i32,
    pub top: i32,
    pub right: i32,
    pub bottom: i32,
}

/// Place of a monitor on the virtual screen spanning all monitors.
#[derive(Debug, Clone, Copy, PartialEq, Eq, Structural)]
pub struct VirtualScreenGeometry {
    pub offset_x: i32,
    pub offset_y: i32,
    pub width: u32,
    pub height: u32,
    pub left: i32,
    pub top: i32,
}

pub open spec fn fits_i32(v: int) -> bool {
    i32::MIN <= v <= i32::MAX
}

/// A monitor's offset inside the virtual screen, its size (the edge
/// differences as unsigned values) and its own top-left corner.
pub fn virtual_screen_geometry(screen: ScreenRect, virtual_screen: ScreenRect) -> (g:
    VirtualScreenGeometry)
    requires
        fits_i32(screen.left - virtual_screen.left),
        fits_i32(screen.top - virtual_screen.top),
        fits_i32(screen.right - screen.left),
        fits_i32(screen.bottom - screen.top),
    ensures
        g.offset_x == screen.left - virtual_screen.left,
        g.offset_y == screen.top - virtual_screen.top,
        g.width == (screen.right - screen.left) as u32,
        g.height == (screen.bottom - screen.top) as u32,
        g.left == screen.left,
        g.top == screen.top,
{
    VirtualScreenGeometry {
        offset_x: screen.left - virtual_screen.left,
        offset_y: screen.top - virtual_screen.top,
        width: (screen.right - screen.left) as u32,
        height: (screen.bottom - screen.top) as u32,
        left: screen.left,
        top: screen.top,
    }
}

/// `Desktop <name> (captrs)`.
pub fn captrs_name(name: &str) -> (s: String)
    ensures
        s@ == "Desktop "@ + name@ + " (captrs)"@,
{
    let mut s = String::from_str("Desktop ");
    s.append(name);
    s.append(" (captrs)");
    s
}

/// An error of the CoreGraphics capture.
pub struct CGError(pub String);

/// A display as CoreGraphics names it.
#[derive(Debug, Clone, Copy, PartialEq, Eq, Structural)]
pub struct CGDisplayCapturable {
    pub display: u32,
}

impl CGDisplayCapturable {
    pub fn new(display: u32) -> (c: Self)
        ensures
            c.display == display,
    {
        CGDisplayCapturable { display }
    }

    /// `Monitor (CG, <width>x<height>)`.
    pub fn name(pixels_wide: u64, pixels_high: u64) -> (s: String)
        ensures
            s@ == "Monitor (CG, "@ + decimal(pixels_wide as nat) + "x"@ + decimal(
                pixels_high as nat,
            ) + ")"@,
    {
        let mut s = String::from_str("Monitor (CG, ");
        let w = u64_to_string(pixels_wide);
        s.append(w.as_str());
        s.append("x");
        let h = u64_to_string(pixels_high);
        s.append(h.as_str());
        s.append(")");
        s
    }
}

/// One capturable per active display, or the error CoreGraphics gave when
/// listing them.
pub fn get_displays(active_displays: Result<Vec<u32>, i32>) -> (r: Result<
    Vec<CGDisplayCapturable>,
    CGError,
>)
    ensures
        active_displays is Ok <==> r is Ok,
        active_displays matches Ok(ids) ==> (r matches Ok(v) && v@.len() == ids@.len() && forall|
            i: int,
        | 0 <= i < ids@.len() ==> #[trigger] v@[i].display == ids@[i]),
        active_displays matches Err(code) ==> (r matches Err(e) && e.0@
            == "Failed to obtain displays, CGError code: "@ + signed_decimal(code as int)),
{
    match active_displays {
        Ok(ids) => {
            let mut v: Vec<CGDisplayCapturable> = Vec::new();
            let mut i: usize = 0;
            while i < ids.len()
                invariant
                    i <= ids@.len(),
                    v@.len() == i,
                    forall|j: int| 0 <= j < i ==> #[trigger] v@[j].display == ids@[j],
                decreases ids@.len() - i,
            {
                v.push(CGDisplayCapturable::new(ids[i]));
                i = i + 1;
            }
            Ok(v)
        },
        Err(code) => {
            let mut s = String::from_str("Failed to obtain displays, CGError code: ");
            let c = i64_to_string(code as i64);
            s.append(c.as_str());
            Err(CGError(s))
        },
    }
}

/// Only 32-bit BGR0 images with 8 bits per component can be encoded.
pub fn check_pixelformat(bits_per_pixel: usize, bits_per_component: usize) -> (r: Result<
    (),
    CGError,
>)
    ensures
        r is Ok <==> bits_per_pixel == 32 && bits_per_component == 8,
        bits_per_pixel != 32 ==> (r matches Err(e) && e.0@
            == "Only BGR0 with 32 bits per pixel is supported, not "@ + decimal(
            bits_per_pixel as nat,
        ) + " bits!"@),
        bits_per_pixel == 32 && bits_per_component != 8 ==> (r matches Err(e) && e.0@
            == "Only BGR0 with 8 bits per component is supported, not "@ + decimal(
            bits_per_component as nat,
        ) + " bits!"@),
{
    if bits_per_pixel != 32 {
        let mut s = String::from_str("Only BGR0 with 32 bits per pixel is supported, not ");
        let n = u64_to_string(bits_per_pixel as u64);
        s.append(n.as_str());
        s.append(" bits!");
        return Err(CGError(s));
    }
    if bits_per_component != 8 {
        let mut s = String::from_str("Only BGR0 with 8 bits per component is supported, not ");
        let n = u64_to_string(bits_per_component as u64);
        s.append(n.as_str());
        s.append(" bits!");
        return Err(CGError(s));
    }
    Ok(())
}

/// A window as CoreGraphics lists it.
pub struct WindowInfo {
    pub id: u32,
    pub name: String,
}

/// A window to capture, with the id of the cursor window drawn over it.
pub struct CGWindowChoice {
    pub id: u32,
    pub name: String,
    pub cursor_id: u32,
}

/// Index of the first window named `Cursor` among the first `n`.
pub open spec fn first_cursor(infos: Seq<WindowInfo>, n: int) -> Option<int>
    decreases n,
{
    if n <= 0 {
        None
    } else {
        match first_cursor(infos, n - 1) {
            Some(i) => Some(i),
            None => if infos[n - 1].name@ == "Cursor"@ {
                Some(n - 1)
            } else {
                None
            },
        }
    }
}

/// The windows among the first `n` that are not the cursor window, as
/// `(id, name)`.
pub open spec fn other_windows(infos: Seq<WindowInfo>, cursor_id: u32, n: int) -> Seq<(u32, Seq<char>)>
    decreases n,
{
    if n <= 0 {
        Seq::empty()
    } else if infos[n - 1].id != cursor_id {
        other_windows(infos, cursor_id, n - 1).push((infos[n - 1].id, infos[n - 1].name@))
    } else {
        other_windows(infos, cursor_id, n - 1)
    }
}

/// The capturable windows: every window but the cursor window (found as
/// the first window named `Cursor`), each drawn with that cursor; an error
/// when no cursor window is listed.
pub fn get_windows(infos: &Vec<WindowInfo>) -> (r: Result<Vec<CGWindowChoice>, CGError>)
    ensures
        first_cursor(infos@, infos@.len() as int) is None ==> (r matches Err(e) && e.0@
            == "No Cursor found!"@),
        first_cursor(infos@, infos@.len() as int) matches Some(c) ==> (r matches Ok(v) && {
            let cursor_id = infos@[c].id;
            let others = other_windows(infos@, cursor_id, infos@.len() as int);
            &&& v@.len() == others.len()
            &&& forall|i: int|
                0 <= i < v@.len() ==> (#[trigger] v@[i]).id == others[i].0 && v@[i].name@
                    == others[i].1 && v@[i].cursor_id == cursor_id
        }),
{
    let found = find_cursor(infos);
    let c = match found {
        None => {
            return Err(CGError(String::from_str("No Cursor found!")));
        },
        Some(c) => c,
    };
    let cursor_id = infos[c].id;
    let mut v: Vec<CGWindowChoice> = Vec::new();
    let mut i: usize = 0;
    while i < infos.len()
        invariant
            i <= infos@.len(),
            first_cursor(infos@, infos@.len() as int) == Some(c as int),
            c < infos@.len(),
            cursor_id == infos@[c as int].id,
            ({
                let others = other_windows(infos@, cursor_id, i as int);
                &&& v@.len() == others.len()
                &&& forall|j: int|
                    0 <= j < v@.len() ==> (#[trigger] v@[j]).id == others[j].0 && v@[j].name@
                        == others[j].1 && v@[j].cursor_id == cursor_id
            }),
        decreases infos@.len() - i,
    {
        let w = &infos[i];
        if w.id != cursor_id {
            v.push(CGWindowChoice { id: w.id, name: w.name.clone(), cursor_id });
        }
        i = i + 1;
    }
    Ok(v)
}

fn find_cursor(infos: &Vec<WindowInfo>) -> (r: Option<usize>)
    ensures
        r matches Some(c) ==> c < infos@.len() && first_cursor(infos@, infos@.len() as int) == Some(c as int),
        r is None ==> first_cursor(infos@, infos@.len() as int) is None,
{
    let mut k: usize = 0;
    while k < infos.len()
        invariant
            k <= infos@.len(),
            first_cursor(infos@, k as int) is None,
        decreases infos@.len() - k,
    {
        if crate::text::str_equal(infos[k].name.as_str(), "Cursor") {
            proof {
                reveal_strlit("Cursor");
                assert(first_cursor(infos@, k as int + 1) == Some(k as int));
                lemma_first_cursor_stable(infos@, k as int + 1, infos@.len() as int);
            }
            return Some(k);
        }
        k = k + 1;
    }
    None
}

proof fn lemma_first_cursor_stable(infos: Seq<WindowInfo>, from: int, to: int)
    requires
        1 <= from <= to,
        first_cursor(infos, from) == Some(from - 1),
    ensures
        first_cursor(infos, to) == Some(from - 1),
    decreases to - from,
{
    if to > from {
        lemma_first_cursor_stable(infos, from, to - 1);
    }
}

} // verus!
