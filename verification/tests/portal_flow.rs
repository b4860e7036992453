use weylus::cerror::listing_failed;
use weylus::config::{pipeline_attempts, pipeline_mode, Attempt, PipewirePipeline};
use weylus::portal::{
    cursor_mode, handle_token, token_for, next_request, pipewire_capturable_name, request_interface,
    restore_token, screen_capture_outcome, session_handle, uses_remote_desktop,
    warn_cursor_on_plasma, DbusValue, PortalError, PortalInterface, PortalRequest, PERSIST_MODE,
};
use weylus::text::{ascii_lowercase_is, contains_str};

fn string_value(s: &str) -> DbusValue {
    DbusValue {
        signed: None,
        unsigned: None,
        text: Some(s.to_string()),
        is_container: false,
        children: vec![],
    }
}

fn number(u: u64) -> DbusValue {
    DbusValue {
        signed: Some(u as i64),
        unsigned: Some(u),
        text: None,
        is_container: false,
        children: vec![],
    }
}

#[test]
fn capturable_names() {
    assert_eq!(pipewire_capturable_name(1, 57), "Pipewire Desktop, path: 57");
    assert_eq!(pipewire_capturable_name(2, 0), "Pipewire Window, path: 0");
    assert_eq!(pipewire_capturable_name(4, 18446744073709551615), "Pipewire Unknown, path: 18446744073709551615");
}

#[test]
fn negotiation_order() {
    assert_eq!(next_request(PortalRequest::CreateSession, true), Some(PortalRequest::SelectDevices));
    assert_eq!(next_request(PortalRequest::CreateSession, false), Some(PortalRequest::SelectSources));
    assert_eq!(next_request(PortalRequest::SelectDevices, true), Some(PortalRequest::SelectSources));
    assert_eq!(next_request(PortalRequest::SelectSources, false), Some(PortalRequest::Start));
    assert_eq!(next_request(PortalRequest::Start, true), None);
    assert_eq!(request_interface(PortalRequest::Start, true), PortalInterface::RemoteDesktop);
    assert_eq!(request_interface(PortalRequest::Start, false), PortalInterface::ScreenCast);
    assert_eq!(request_interface(PortalRequest::SelectSources, true), PortalInterface::ScreenCast);
    assert_eq!(request_interface(PortalRequest::SelectDevices, true), PortalInterface::RemoteDesktop);
}

#[test]
fn desktop_sessions() {
    assert!(uses_remote_desktop(Some("gnome-xorg")));
    assert!(uses_remote_desktop(Some("ubuntu:gnome")));
    assert!(!uses_remote_desktop(Some("plasmawayland")));
    assert!(!uses_remote_desktop(None));
    assert!(warn_cursor_on_plasma(Some("plasma"), true));
    assert!(!warn_cursor_on_plasma(Some("plasma"), false));
    assert!(!warn_cursor_on_plasma(Some("sway"), true));
    assert_eq!(cursor_mode(true), 2);
    assert_eq!(cursor_mode(false), 1);
    assert_eq!(PERSIST_MODE, 2);
}

#[test]
fn tokens_are_weylus_and_a_number() {
    let t = handle_token().expect("the system random source is available");
    assert!(t.starts_with("weylus"));
    let digits = &t["weylus".len()..];
    assert!(!digits.is_empty());
    assert!(digits.chars().all(|c| c.is_ascii_digit()));
}

#[test]
fn token_for_a_number() {
    assert_eq!(token_for(0), "weylus0");
    assert_eq!(token_for(1234567890), "weylus1234567890");
    assert_eq!(token_for(u64::MAX), "weylus18446744073709551615");
}

#[test]
fn answers() {
    assert_eq!(session_handle(Some(&string_value("/org/x/session/1"))), Ok("/org/x/session/1".to_string()));
    assert_eq!(session_handle(Some(&number(3))), Err(PortalError::SessionHandleNotString));
    assert_eq!(session_handle(None), Err(PortalError::NoSessionHandle));
    assert_eq!(restore_token(Some(&string_value("abc"))), Some("abc".to_string()));
    assert_eq!(restore_token(Some(&number(1))), None);
    assert_eq!(restore_token(None), None);
    assert_eq!(screen_capture_outcome(true, 2), Ok(()));
    assert_eq!(screen_capture_outcome(true, 0), Err(PortalError::NoScreenCapture));
    assert_eq!(screen_capture_outcome(false, 1), Err(PortalError::NoScreenCapture));
}

#[test]
fn pipeline_override() {
    assert_eq!(pipeline_mode("", PipewirePipeline::Gl), PipewirePipeline::Gl);
    assert_eq!(pipeline_mode("DMABUF", PipewirePipeline::Auto), PipewirePipeline::Dmabuf);
    assert_eq!(pipeline_mode("Linear-CPU", PipewirePipeline::Auto), PipewirePipeline::LinearCpu);
    assert_eq!(pipeline_mode("auto", PipewirePipeline::Direct), PipewirePipeline::Auto);
    assert_eq!(pipeline_mode("vulkan", PipewirePipeline::Direct), PipewirePipeline::Direct);
}

#[test]
fn pipeline_plans() {
    assert_eq!(
        pipeline_attempts(PipewirePipeline::Auto, true),
        vec![
            (PipewirePipeline::Direct, Attempt::ProbeOrFail),
            (PipewirePipeline::Dmabuf, Attempt::Probe),
            (PipewirePipeline::LinearCpu, Attempt::Probe),
            (PipewirePipeline::Gl, Attempt::Start),
        ]
    );
    assert_eq!(
        pipeline_attempts(PipewirePipeline::Auto, false),
        vec![
            (PipewirePipeline::Direct, Attempt::ProbeOrFail),
            (PipewirePipeline::LinearCpu, Attempt::Probe),
            (PipewirePipeline::Gl, Attempt::Start),
        ]
    );
    assert_eq!(
        pipeline_attempts(PipewirePipeline::Dmabuf, false),
        vec![(PipewirePipeline::Dmabuf, Attempt::Start)]
    );
}

#[test]
fn text_helpers() {
    assert!(contains_str("abcabd", "abd"));
    assert!(contains_str("abc", ""));
    assert!(!contains_str("ab", "abc"));
    assert!(!contains_str("abcab", "bb"));
    assert!(ascii_lowercase_is("MiXeD-1", "mixed-1"));
    assert!(!ascii_lowercase_is("Straße", "strasse"));
    assert!(!ascii_lowercase_is("ab", "abc"));
}

#[test]
fn x11_listing_errors() {
    assert!(!listing_failed(0));
    assert!(!listing_failed(2));
    assert!(listing_failed(1));
    assert!(listing_failed(101));
}
