//! The control plane's data: configuration, integration mode, the render
//! thread's messages and states.

use vstd::prelude::*;
use vstd::string::StringExecFns;
use crate::json::JsonValue;
use crate::libmpv::models::MpvFormat;

verus! {

/// How the engine's picture reaches the window.
#[derive(Debug, Clone, Copy, PartialEq, Eq)]
pub enum MpvIntegration {
    /// The engine draws into the window by its native identifier.
    Wid,
    /// The caller owns a GL context and asks the engine to draw into it.
    Render,
}

impl Default for MpvIntegration {
    fn default() -> (res: MpvIntegration)
        ensures
            res == MpvIntegration::Wid,
    {
        MpvIntegration::Wid
    }
}

/// One engine option given at initialization. `rendered` is the JSON text of
/// `value`; it is read where the value is a double.
#[derive(Debug, PartialEq, Eq)]
pub struct InitialOption {
    pub key: String,
    pub value: JsonValue,
    pub rendered: String,
}

/// One property to observe, with the format in which its changes are
/// reported.
#[derive(Debug, Clone, PartialEq, Eq)]
pub struct ObservedProperty {
    pub name: String,
    pub format: MpvFormat,
}

/// What the frontend supplies at initialization.
#[derive(Debug, PartialEq, Eq)]
pub struct MpvConfig {
    pub integration_mode: MpvIntegration,
    pub initial_options: Vec<InitialOption>,
    pub observed_properties: Vec<ObservedProperty>,
}

/// A message in the render thread's inbox.
#[derive(Debug, Clone, Copy, PartialEq, Eq)]
pub enum MpvThreadEvent {
    Redraw,
    MpvEvents,
}

/// The render thread's frame-pacing state. `Clearing(n)` has `n` redraws
/// left before it stops.
#[derive(Debug, Clone, Copy, PartialEq, Eq)]
pub enum RenderState {
    Playing,
    Clearing(u8),
    Stopped,
}

/// The four margins of the picture, each as the bits of a double, each
/// optional.
#[derive(Debug, Clone, Copy, PartialEq, Eq)]
pub struct VideoMarginRatio {
    pub left: Option<u64>,
    pub right: Option<u64>,
    pub top: Option<u64>,
    pub bottom: Option<u64>,
}

/// A window's inner size as the size of a surface: both dimensions, unless
/// one of them is zero.
pub fn non_zero(width: u32, height: u32) -> (res: Option<(u32, u32)>)
    ensures
        res == if width == 0 || height == 0 {
            None
        } else {
            Some((width, height))
        },
{
    if width == 0 || height == 0 {
        None
    } else {
        Some((width, height))
    }
}

/// The program that is started where no path is configured.
pub fn default_mpv_path() -> (res: String)
    ensures
        res@ == "mpv"@,
{
    String::from_str("mpv")
}

/// The time in milliseconds that a request may take where none is
/// configured.
pub fn default_ipc_timeout() -> (res: u64)
    ensures
        res == 2000,
{
    2000
}

} // verus!
