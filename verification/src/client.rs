//! What a connected browser client's configuration request leads to: which
//! input device to set up and whether video may start.

use vstd::prelude::*;
use crate::cerror::{CErrorCode, code_kind};
use crate::video::EncoderOptions;

verus! {

/// Kinds of input devices a client can drive.
#[derive(Debug, Clone, Copy, PartialEq, Eq, Structural)]
pub enum InputDeviceType {
    AutoPilotDevice,
    UInputDevice,
    WindowsInput,
}

/// Settings shared by every client of one server.
#[derive(Debug, Clone, Copy, PartialEq, Eq, Structural)]
pub struct WeylusClientConfig {
    pub encoder_options: EncoderOptions,
    pub wayland_support: bool,
}

/// The parts of a client's configuration request that decide its input device.
pub struct ConfigRequest {
    pub uinput_support: bool,
    pub capturable_id: usize,
    pub capture_cursor: bool,
    pub client_name: Option<String>,
}

/// What to do with a configuration request.
#[derive(Debug, Clone, Copy, PartialEq, Eq, Structural)]
pub enum ConfigStep {
    /// The capturable id is out of range: answer with a configuration error.
    InvalidCapturable,
    /// Create a new uinput device, then start the video.
    CreateUInput,
    /// Create a new autopilot device, then start the video.
    CreateAutoPilot,
    /// Point the existing device at the chosen capturable, then start the video.
    Retarget,
}

/// The client's state as the decisions see it.
pub struct SessionModel {
    pub client_name: Option<Seq<char>>,
    pub capture_cursor: bool,
    pub device: Option<InputDeviceType>,
}

pub open spec fn opt_string_view(s: Option<String>) -> Option<Seq<char>> {
    match s {
        Some(s) => Some(s@),
        None => None,
    }
}

/// The step a configuration request leads to.
pub open spec fn config_step(
    s: SessionModel,
    uinput_support: bool,
    capturable_id: usize,
    client_name: Option<Seq<char>>,
    n_capturables: usize,
) -> ConfigStep {
    let name_changed = s.client_name != client_name;
    if capturable_id >= n_capturables {
        ConfigStep::InvalidCapturable
    } else if uinput_support {
        match s.device {
            Some(d) => if name_changed || d != InputDeviceType::UInputDevice {
                ConfigStep::CreateUInput
            } else {
                ConfigStep::Retarget
            },
            None => ConfigStep::CreateUInput,
        }
    } else {
        match s.device {
            Some(d) => if d != InputDeviceType::AutoPilotDevice {
                ConfigStep::CreateAutoPilot
            } else {
                ConfigStep::Retarget
            },
            None => ConfigStep::CreateAutoPilot,
        }
    }
}

/// The state after a configuration request: the client name is always taken
/// over; the cursor setting only for a valid capturable.
pub open spec fn config_state(
    s: SessionModel,
    capture_cursor: bool,
    capturable_id: usize,
    client_name: Option<Seq<char>>,
    n_capturables: usize,
) -> SessionModel {
    SessionModel {
        client_name,
        capture_cursor: if capturable_id < n_capturables {
            capture_cursor
        } else {
            s.capture_cursor
        },
        device: s.device,
    }
}

/// Per-client state: its name, whether the cursor is captured and the input
/// device it drives, if any.
pub struct ClientSession {
    client_name: Option<String>,
    capture_cursor: bool,
    device: Option<InputDeviceType>,
}

fn opt_str_equal(a: &Option<String>, b: &Option<String>) -> (r: bool)
    ensures
        r == (opt_string_view(*a) == opt_string_view(*b)),
{
    match (a, b) {
        (Some(x), Some(y)) => crate::text::str_equal(x.as_str(), y.as_str()),
        (None, None) => true,
        _ => false,
    }
}

fn clone_opt_string(a: &Option<String>) -> (r: Option<String>)
    ensures
        opt_string_view(r) == opt_string_view(*a),
{
    match a {
        Some(x) => Some(x.clone()),
        None => None,
    }
}

impl ClientSession {
    pub closed spec fn model(&self) -> SessionModel {
        SessionModel {
            client_name: opt_string_view(self.client_name),
            capture_cursor: self.capture_cursor,
            device: self.device,
        }
    }

    /// A fresh client: no name, cursor not captured, no input device.
    pub fn new() -> (c: Self)
        ensures
            c.model() == (SessionModel { client_name: None, capture_cursor: false, device: None }),
    {
        ClientSession { client_name: None, capture_cursor: false, device: None }
    }

    pub fn client_name(&self) -> (n: Option<String>)
        ensures
            opt_string_view(n) == self.model().client_name,
    {
        clone_opt_string(&self.client_name)
    }

    pub fn capture_cursor(&self) -> (c: bool)
        ensures
            c == self.model().capture_cursor,
    {
        self.capture_cursor
    }

    pub fn device(&self) -> (d: Option<InputDeviceType>)
        ensures
            d == self.model().device,
    {
        self.device
    }

    /// Takes in a configuration request for a server that offers
    /// `n_capturables` capturables and says what to do with it.
    pub fn update_config(&mut self, request: &ConfigRequest, n_capturables: usize) -> (step:
        ConfigStep)
        ensures
            step == config_step(
                old(self).model(),
                request.uinput_support,
                request.capturable_id,
                opt_string_view(request.client_name),
                n_capturables,
            ),
            final(self).model() == config_state(
                old(self).model(),
                request.capture_cursor,
                request.capturable_id,
                opt_string_view(request.client_name),
                n_capturables,
            ),
    {
        let client_name_changed = !opt_str_equal(&self.client_name, &request.client_name);
        if client_name_changed {
            self.client_name = clone_opt_string(&request.client_name);
        }
        if request.capturable_id >= n_capturables {
            return ConfigStep::InvalidCapturable;
        }
        self.capture_cursor = request.capture_cursor;
        if request.uinput_support {
            match self.device {
                Some(d) => {
                    if client_name_changed || d != InputDeviceType::UInputDevice {
                        ConfigStep::CreateUInput
                    } else {
                        ConfigStep::Retarget
                    }
                },
                None => ConfigStep::CreateUInput,
            }
        } else {
            match self.device {
                Some(d) => {
                    if d != InputDeviceType::AutoPilotDevice {
                        ConfigStep::CreateAutoPilot
                    } else {
                        ConfigStep::Retarget
                    }
                },
                None => ConfigStep::CreateAutoPilot,
            }
        }
    }

    /// The device a `CreateUInput` or `CreateAutoPilot` step asked for now exists.
    pub fn device_created(&mut self, device: InputDeviceType)
        ensures
            final(self).model() == (SessionModel { device: Some(device), ..old(self).model() }),
    {
        self.device = Some(device);
    }
}

/// Whether a failure to create the uinput device must be reported to the
/// user as an inaccessible `/dev/uinput`.
pub fn uinput_failure_needs_notice(code: i32) -> (r: bool)
    ensures
        r == (code_kind(code) == CErrorCode::UInputNotAccessible),
{
    code == crate::cerror::UINPUT_NOT_ACCESSIBLE
}

pub open spec fn created_device(step: ConfigStep) -> InputDeviceType {
    if step == ConfigStep::CreateUInput {
        InputDeviceType::UInputDevice
    } else {
        InputDeviceType::AutoPilotDevice
    }
}

/// Sending the same configuration again, once the device it asked for
/// exists, keeps that device and only points it at the capturable.
pub proof fn repeated_config_keeps_device(
    s: SessionModel,
    uinput_support: bool,
    capture_cursor: bool,
    capturable_id: usize,
    client_name: Option<Seq<char>>,
    n_capturables: usize,
)
    requires
        capturable_id < n_capturables,
    ensures
        ({
            let step = config_step(s, uinput_support, capturable_id, client_name, n_capturables);
            let s1 = config_state(s, capture_cursor, capturable_id, client_name, n_capturables);
            let s2 = if step == ConfigStep::Retarget {
                s1
            } else {
                SessionModel { device: Some(created_device(step)), ..s1 }
            };
            config_step(s2, uinput_support, capturable_id, client_name, n_capturables)
                == ConfigStep::Retarget
        }),
{
}

/// A request naming a capturable that does not exist leaves the device and
/// the cursor setting alone.
pub proof fn invalid_capturable_changes_no_device(
    s: SessionModel,
    uinput_support: bool,
    capture_cursor: bool,
    capturable_id: usize,
    client_name: Option<Seq<char>>,
    n_capturables: usize,
)
    requires
        capturable_id >= n_capturables,
    ensures
        config_step(s, uinput_support, capturable_id, client_name, n_capturables)
            == ConfigStep::InvalidCapturable,
        config_state(s, capture_cursor, capturable_id, client_name, n_capturables).device
            == s.device,
        config_state(s, capture_cursor, capturable_id, client_name, n_capturables).capture_cursor
            == s.capture_cursor,
{
}

/// What the server does with a websocket frame from the browser.
#[derive(Debug, Clone, Copy, PartialEq, Eq, Structural)]
pub enum FrameKind {
    Close,
    Text,
    Other,
}

#[derive(Debug, Clone, Copy, PartialEq, Eq, Structural)]
pub enum FrameAction {
    /// Stop reading from this client.
    Stop,
    /// Parse the payload as a message.
    ParseMessage,
    Ignore,
}

/// A close frame ends the connection, a text frame carries a message, every
/// other frame is ignored.
pub fn frame_action(kind: FrameKind) -> (a: FrameAction)
    ensures
        a == (match kind {
            FrameKind::Close => FrameAction::Stop,
            FrameKind::Text => FrameAction::ParseMessage,
            FrameKind::Other => FrameAction::Ignore,
        }),
{
    match kind {
        FrameKind::Close => FrameAction::Stop,
        FrameKind::Text => FrameAction::ParseMessage,
        FrameKind::Other => FrameAction::Ignore,
    }
}

} // verus!
