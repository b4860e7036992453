use weylus::video::{
    bgr0_stride, throttle_notice, encoder_options_for, EncoderSize, FrameStep, PixelProvider, Platform,
    VideoAction, VideoCommand, VideoLoop, DEFAULT_MAX_HEIGHT, DEFAULT_MAX_WIDTH,
};

#[test]
fn frame_sizes_and_strides() {
    let buf = [0u8; 24];
    let p = PixelProvider::BGR0(3, 2, &buf);
    assert_eq!(p.size(), (3, 2));
    assert_eq!(bgr0_stride(&p), Some(12));
    let p = PixelProvider::BGR0S(3, 2, 16, &buf);
    assert_eq!(p.size(), (3, 2));
    assert_eq!(bgr0_stride(&p), Some(16));
    assert_eq!(bgr0_stride(&PixelProvider::RGB(2, 2, &buf)), None);
    assert_eq!(PixelProvider::RGB0(4, 1, &buf).size(), (4, 1));
}

#[test]
fn encoder_size_check() {
    let e = EncoderSize {
        width_in: 1920,
        height_in: 1080,
        width_out: 1280,
        height_out: 720,
    };
    assert!(e.check_size(1920, 1080, 1280, 720));
    assert!(!e.check_size(1920, 1080, 1920, 1080));
}

#[test]
fn encoders_per_platform() {
    let o = encoder_options_for(Platform::Linux, true, true, true, true);
    assert!(o.try_vaapi && o.try_nvenc && !o.try_videotoolbox && !o.try_mediafoundation);
    let o = encoder_options_for(Platform::Windows, true, true, true, true);
    assert!(!o.try_vaapi && o.try_nvenc && !o.try_videotoolbox && o.try_mediafoundation);
    let o = encoder_options_for(Platform::MacOs, true, true, true, false);
    assert!(!o.try_vaapi && !o.try_nvenc && o.try_videotoolbox && !o.try_mediafoundation);
}

#[test]
fn video_loop_commands() {
    let mut v = VideoLoop::new();
    assert_eq!((v.max_width, v.max_height), (DEFAULT_MAX_WIDTH, DEFAULT_MAX_HEIGHT));
    assert_eq!(v.command(VideoCommand::Tick), VideoAction::Nothing);
    assert_eq!(
        v.command(VideoCommand::Start {
            recorder_ok: true,
            max_width: 800,
            max_height: 600
        }),
        VideoAction::SendConfigOk
    );
    assert_eq!((v.max_width, v.max_height), (800, 600));
    assert_eq!(v.command(VideoCommand::Tick), VideoAction::CaptureFrame);
    assert_eq!(v.command(VideoCommand::Pause), VideoAction::Nothing);
    assert!(v.waits_without_deadline());
    v.command(VideoCommand::Resume);
    assert!(!v.waits_without_deadline());
    assert_eq!(
        v.command(VideoCommand::Start {
            recorder_ok: false,
            max_width: 1,
            max_height: 1
        }),
        VideoAction::SendError
    );
    assert_eq!((v.max_width, v.max_height), (800, 600));
    assert_eq!(v.command(VideoCommand::Tick), VideoAction::Nothing);
    assert_eq!(v.command(VideoCommand::Closed), VideoAction::Stop);
}

#[test]
fn encoder_restarts_when_sizes_change() {
    let mut v = VideoLoop::new();
    let a = EncoderSize {
        width_in: 100,
        height_in: 100,
        width_out: 100,
        height_out: 100,
    };
    assert_eq!(v.frame_captured(a), FrameStep::RestartEncoder);
    v.encoder_created(a);
    assert_eq!(v.frame_captured(a), FrameStep::Encode);
    let b = EncoderSize { width_out: 50, ..a };
    assert_eq!(v.frame_captured(b), FrameStep::RestartEncoder);
}

#[test]
fn early_frame_requests_are_told_to_wait() {
    assert_eq!(throttle_notice(10_000_000, 10_000_000), None);
    assert_eq!(throttle_notice(3_700_000, 10_500_000), Some("@6".to_string()));
    assert_eq!(throttle_notice(0, 999_999), Some("@0".to_string()));
}
