//! Verified core of a tablet/touch-screen remote-input server: configuration
//! choices, screen geometry, wire-protocol decoding, pixel buffers and the
//! decisions that turn browser pointer events into input-device events.

pub mod capture;
pub mod cerror;
pub mod client;
pub mod config;
pub mod drm;
pub mod frame;
pub mod geometry;
pub mod input_area;
pub mod keys;
pub mod macos_tablet;
pub mod network;
pub mod pointer_device;
pub mod portal;
pub mod protocol;
pub mod testsrc;
pub mod text;
pub mod uinput;
pub mod video;
pub mod web;
pub mod yuv;
