//! Frames handed to the video encoder.

use vstd::prelude::*;
use crate::text::{decimal, u64_to_string};

verus! {

/// A captured frame: width, height and the pixel bytes, 8 bits per colour.
pub enum PixelProvider<'a> {
    RGB(usize, usize, &'a [u8]),
    RGB0(usize, usize, &'a [u8]),
    BGR0(usize, usize, &'a [u8]),
    /// Width, height, stride (bytes per row) and the pixel bytes.
    BGR0S(usize, usize, usize, &'a [u8]),
}

/// Width and height of a frame.
pub open spec fn frame_size(p: PixelProvider) -> (usize, usize) {
    match p {
        PixelProvider::RGB(w, h, _) => (w, h),
        PixelProvider::RGB0(w, h, _) => (w, h),
        PixelProvider::BGR0(w, h, _) => (w, h),
        PixelProvider::BGR0S(w, h, _, _) => (w, h),
    }
}

impl<'a> PixelProvider<'a> {
    /// Width and height of the frame.
    pub fn size(&self) -> (r: (usize, usize))
        ensures
            r == frame_size(*self),
    {
        match self {
            PixelProvider::RGB(w, h, _) => (*w, *h),
            PixelProvider::RGB0(w, h, _) => (*w, *h),
            PixelProvider::BGR0(w, h, _) => (*w, *h),
            PixelProvider::BGR0S(w, h, _, _) => (*w, *h),
        }
    }
}

/// The row stride in bytes the encoder reads a BGR0 frame with: four bytes
/// per pixel for a packed frame, the given stride otherwise; `None` for the
/// RGB formats, which the encoder reads packed.
pub fn bgr0_stride(p: &PixelProvider) -> (s: Option<usize>)
    requires
        p matches PixelProvider::BGR0(w, _, _) ==> w * 4 <= usize::MAX,
    ensures
        s == (match *p {
            PixelProvider::BGR0(w, _, _) => Some((w * 4) as usize),
            PixelProvider::BGR0S(_, _, stride, _) => Some(stride),
            _ => None,
        }),
{
    match p {
        PixelProvider::BGR0(w, _, _) => Some(*w * 4),
        PixelProvider::BGR0S(_, _, stride, _) => Some(*stride),
        _ => None,
    }
}

/// Which hardware encoders to try.
#[derive(Debug, Clone, Copy, PartialEq, Eq, Structural)]
pub struct EncoderOptions {
    pub try_vaapi: bool,
    pub try_nvenc: bool,
    pub try_videotoolbox: bool,
    pub try_mediafoundation: bool,
}

/// Input and output dimensions an encoder was set up for.
#[derive(Debug, Clone, Copy, PartialEq, Eq, Structural)]
pub struct EncoderSize {
    pub width_in: usize,
    pub height_in: usize,
    pub width_out: usize,
    pub height_out: usize,
}

impl EncoderSize {
    /// Whether an encoder set up for `self` can encode frames of the given sizes.
    pub fn check_size(
        &self,
        width_in: usize,
        height_in: usize,
        width_out: usize,
        height_out: usize,
    ) -> (r: bool)
        ensures
            r == (self.width_in == width_in && self.height_in == height_in && self.width_out
                == width_out && self.height_out == height_out),
    {
        (self.width_in == width_in) && (self.height_in == height_in) && (self.width_out
            == width_out) && (self.height_out == height_out)
    }
}

/// Operating systems the server runs on.
#[derive(Debug, Clone, Copy, PartialEq, Eq, Structural)]
pub enum Platform {
    Linux,
    MacOs,
    Windows,
}

/// The encoders a server tries: each setting counts only on the platform
/// that has the encoder (VA-API on Linux, NVENC on Linux and Windows,
/// VideoToolbox on macOS, Media Foundation on Windows).
pub fn encoder_options_for(
    platform: Platform,
    try_vaapi: bool,
    try_nvenc: bool,
    try_videotoolbox: bool,
    try_mediafoundation: bool,
) -> (o: EncoderOptions)
    ensures
        o.try_vaapi == (platform == Platform::Linux && try_vaapi),
        o.try_nvenc == ((platform == Platform::Linux || platform == Platform::Windows) && try_nvenc),
        o.try_videotoolbox == (platform == Platform::MacOs && try_videotoolbox),
        o.try_mediafoundation == (platform == Platform::Windows && try_mediafoundation),
{
    EncoderOptions {
        try_vaapi: platform == Platform::Linux && try_vaapi,
        try_nvenc: (platform == Platform::Linux || platform == Platform::Windows) && try_nvenc,
        try_videotoolbox: platform == Platform::MacOs && try_videotoolbox,
        try_mediafoundation: platform == Platform::Windows && try_mediafoundation,
    }
}

/// Largest frame a client gets before it asked for a size.
pub const DEFAULT_MAX_WIDTH: usize = 1920;
pub const DEFAULT_MAX_HEIGHT: usize = 1080;

/// What the video thread of a client is told.
#[derive(Debug, Clone, Copy, PartialEq, Eq, Structural)]
pub enum VideoCommand {
    /// A new capturable was chosen; `recorder_ok` says whether its recorder
    /// could be set up.
    Start { recorder_ok: bool, max_width: usize, max_height: usize },
    Pause,
    Resume,
    /// The time for the next frame has come.
    Tick,
    /// The client is gone.
    Closed,
}

/// What the video thread does next.
#[derive(Debug, Clone, Copy, PartialEq, Eq, Structural)]
pub enum VideoAction {
    /// Tell the client its configuration was applied.
    SendConfigOk,
    /// Tell the client the screen cast could not be set up.
    SendError,
    /// Capture a frame and hand its sizes to `frame_captured`.
    CaptureFrame,
    Nothing,
    /// End the thread.
    Stop,
}

/// What to do with a captured frame.
#[derive(Debug, Clone, Copy, PartialEq, Eq, Structural)]
pub enum FrameStep {
    /// The encoder fits the frame: encode it.
    Encode,
    /// Announce a new video to the client and set up an encoder for these
    /// sizes, then encode.
    RestartEncoder,
}

/// State of a client's video thread.
#[derive(Debug, Clone, Copy, PartialEq, Eq, Structural)]
pub struct VideoLoop {
    pub paused: bool,
    pub recording: bool,
    pub max_width: usize,
    pub max_height: usize,
    pub encoder: Option<EncoderSize>,
}

pub open spec fn spec_command(s: VideoLoop, c: VideoCommand) -> (VideoLoop, VideoAction) {
    match c {
        VideoCommand::Start { recorder_ok, max_width, max_height } => if recorder_ok {
            (
                VideoLoop { recording: true, max_width, max_height, ..s },
                VideoAction::SendConfigOk,
            )
        } else {
            (VideoLoop { recording: false, ..s }, VideoAction::SendError)
        },
        VideoCommand::Pause => (VideoLoop { paused: true, ..s }, VideoAction::Nothing),
        VideoCommand::Resume => (VideoLoop { paused: false, ..s }, VideoAction::Nothing),
        VideoCommand::Tick => if s.recording {
            (s, VideoAction::CaptureFrame)
        } else {
            (s, VideoAction::Nothing)
        },
        VideoCommand::Closed => (s, VideoAction::Stop),
    }
}

impl VideoLoop {
    /// Not paused, nothing recorded, no encoder, the default size limit.
    pub fn new() -> (v: Self)
        ensures
            v == (VideoLoop {
                paused: false,
                recording: false,
                max_width: DEFAULT_MAX_WIDTH,
                max_height: DEFAULT_MAX_HEIGHT,
                encoder: None,
            }),
    {
        VideoLoop {
            paused: false,
            recording: false,
            max_width: DEFAULT_MAX_WIDTH,
            max_height: DEFAULT_MAX_HEIGHT,
            encoder: None,
        }
    }

    /// Whether the thread waits for a command without a frame deadline.
    pub fn waits_without_deadline(&self) -> (r: bool)
        ensures
            r == self.paused,
    {
        self.paused
    }

    /// Takes in a command: a start replaces the recorder and, when it could
    /// be set up, the size limit; pause and resume switch the frame
    /// deadline; a tick captures a frame when there is a recorder.
    pub fn command(&mut self, c: VideoCommand) -> (a: VideoAction)
        ensures
            (*final(self), a) == spec_command(*old(self), c),
    {
        match c {
            VideoCommand::Start { recorder_ok, max_width, max_height } => {
                if recorder_ok {
                    self.recording = true;
                    self.max_width = max_width;
                    self.max_height = max_height;
                    VideoAction::SendConfigOk
                } else {
                    self.recording = false;
                    VideoAction::SendError
                }
            },
            VideoCommand::Pause => {
                self.paused = true;
                VideoAction::Nothing
            },
            VideoCommand::Resume => {
                self.paused = false;
                VideoAction::Nothing
            },
            VideoCommand::Tick => {
                if self.recording {
                    VideoAction::CaptureFrame
                } else {
                    VideoAction::Nothing
                }
            },
            VideoCommand::Closed => VideoAction::Stop,
        }
    }

    /// A frame of `size` was captured (output sizes already fitted to the
    /// limit): encode it when the encoder was set up for exactly these sizes,
    /// otherwise restart the encoder first.
    pub fn frame_captured(&self, size: EncoderSize) -> (f: FrameStep)
        ensures
            f == (if self.encoder == Some(size) {
                FrameStep::Encode
            } else {
                FrameStep::RestartEncoder
            }),
    {
        match self.encoder {
            Some(e) => {
                if e.check_size(size.width_in, size.height_in, size.width_out, size.height_out) {
                    FrameStep::Encode
                } else {
                    FrameStep::RestartEncoder
                }
            },
            None => FrameStep::RestartEncoder,
        }
    }

    /// An encoder for `size` was set up.
    pub fn encoder_created(&mut self, size: EncoderSize)
        ensures
            *final(self) == (VideoLoop { encoder: Some(size), ..*old(self) }),
    {
        self.encoder = Some(size);
    }
}

/// After a start whose recorder failed, ticks capture nothing until the next
/// successful start; after a successful one, every tick captures.
pub proof fn ticks_capture_only_with_a_recorder(s: VideoLoop, ok: bool, w: usize, h: usize)
    ensures
        ({
            let (s1, _) = spec_command(s, VideoCommand::Start { recorder_ok: ok, max_width: w, max_height: h });
            spec_command(s1, VideoCommand::Tick).1 == if ok {
                VideoAction::CaptureFrame
            } else {
                VideoAction::Nothing
            }
        }),
{
}

/// Pausing and resuming changes nothing but the frame deadline.
pub proof fn pause_then_resume_restores_state(s: VideoLoop)
    requires
        !s.paused,
    ensures
        spec_command(spec_command(s, VideoCommand::Pause).0, VideoCommand::Resume).0 == s,
{
}

/// When a client asks for a frame too early, it is told how long to wait:
/// `@` followed by the remaining milliseconds (rounded down); `None` when
/// the interval has passed and a frame is due.
pub fn throttle_notice(elapsed_ns: u64, interval_ns: u64) -> (r: Option<String>)
    ensures
        elapsed_ns >= interval_ns ==> r is None,
        elapsed_ns < interval_ns ==> (r matches Some(s) && s@ == "@"@ + decimal(
            ((interval_ns - elapsed_ns) / 1_000_000) as nat,
        )),
{
    if elapsed_ns >= interval_ns {
        return None;
    }
    let mut s = String::from_str("@");
    let d = u64_to_string((interval_ns - elapsed_ns) / 1_000_000);
    s.append(d.as_str());
    Some(s)
}

} // verus!
