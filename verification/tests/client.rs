use weylus::cerror::{CError, CErrorCode};
use weylus::client::{
    frame_action, uinput_failure_needs_notice, ClientSession, ConfigRequest, ConfigStep,
    FrameAction, FrameKind, InputDeviceType,
};

fn request(uinput: bool, id: usize, name: Option<&str>) -> ConfigRequest {
    ConfigRequest {
        uinput_support: uinput,
        capturable_id: id,
        capture_cursor: true,
        client_name: name.map(|s| s.to_string()),
    }
}

#[test]
fn first_config_creates_the_device_and_repeating_it_keeps_it() {
    let mut c = ClientSession::new();
    let step = c.update_config(&request(true, 0, Some("tablet")), 2);
    assert_eq!(step, ConfigStep::CreateUInput);
    assert!(c.capture_cursor());
    assert_eq!(c.client_name(), Some("tablet".to_string()));
    c.device_created(InputDeviceType::UInputDevice);
    assert_eq!(c.update_config(&request(true, 1, Some("tablet")), 2), ConfigStep::Retarget);
    assert_eq!(c.device(), Some(InputDeviceType::UInputDevice));
}

#[test]
fn renamed_client_gets_a_new_uinput_device() {
    let mut c = ClientSession::new();
    c.update_config(&request(true, 0, Some("a")), 1);
    c.device_created(InputDeviceType::UInputDevice);
    assert_eq!(c.update_config(&request(true, 0, Some("b")), 1), ConfigStep::CreateUInput);
}

#[test]
fn switching_backends_creates_the_other_device() {
    let mut c = ClientSession::new();
    assert_eq!(c.update_config(&request(false, 0, None), 1), ConfigStep::CreateAutoPilot);
    c.device_created(InputDeviceType::AutoPilotDevice);
    assert_eq!(c.update_config(&request(false, 0, Some("x")), 1), ConfigStep::Retarget);
    assert_eq!(c.update_config(&request(true, 0, Some("x")), 1), ConfigStep::CreateUInput);
}

#[test]
fn invalid_capturable_is_refused_but_the_name_is_taken() {
    let mut c = ClientSession::new();
    assert_eq!(c.update_config(&request(true, 3, Some("n")), 3), ConfigStep::InvalidCapturable);
    assert!(!c.capture_cursor());
    assert_eq!(c.device(), None);
    assert_eq!(c.client_name(), Some("n".to_string()));
}

#[test]
fn only_an_inaccessible_uinput_is_reported() {
    assert!(uinput_failure_needs_notice(101));
    assert!(!uinput_failure_needs_notice(1));
    assert!(!uinput_failure_needs_notice(0));
}

#[test]
fn error_codes() {
    let e = CError::new();
    assert!(!e.is_err());
    assert_eq!(e.to_enum(), CErrorCode::NoError);
    let e = CError::from_parts(101, "no access".to_string());
    assert!(e.is_err());
    assert_eq!(e.code(), 101);
    assert_eq!(e.message(), "no access");
    assert_eq!(e.to_enum(), CErrorCode::UInputNotAccessible);
    assert_eq!(CError::from_parts(-3, String::new()).to_enum(), CErrorCode::GenericError);
}

#[test]
fn websocket_frames() {
    assert_eq!(frame_action(FrameKind::Close), FrameAction::Stop);
    assert_eq!(frame_action(FrameKind::Text), FrameAction::ParseMessage);
    assert_eq!(frame_action(FrameKind::Other), FrameAction::Ignore);
}
