//! Native window identifiers and the choice of the GL platform interface.

use vstd::prelude::*;
use vstd::string::StringExecFns;
use crate::error::Error;

verus! {

/// `raw_window_handle::RawWindowHandle`, carried through as it is: nothing
/// inside it is read here but by `native_window`.
#[verifier::external_type_specification]
#[verifier::external_body]
pub struct ExRawWindowHandle(raw_window_handle::RawWindowHandle);

/// A window of the host as the platform names it: the window system and,
/// where the engine can draw into it, the window's native identifier.
#[derive(Debug, Clone, Copy, PartialEq, Eq)]
pub enum NativeWindow {
    Win32(i64),
    Xlib(i64),
    Xcb(i64),
    AppKit(i64),
    Wayland,
    Other,
}

/// The operating system that the host runs on.
#[derive(Debug, Clone, Copy, PartialEq, Eq)]
pub enum Platform {
    Windows,
    MacOs,
    Unix,
}

/// The GL platform interfaces to try for a display, in order.
#[derive(Debug, Clone, Copy, PartialEq, Eq)]
pub enum DisplayApi {
    WglThenEgl,
    Cgl,
    GlxThenEgl,
    Egl,
}

/// The window that a raw handle stands for.
pub uninterp spec fn window_of(handle: raw_window_handle::RawWindowHandle) -> NativeWindow;

/// Tells the variants of `raw_window_handle::RawWindowHandle` apart and
/// takes the window's identifier out of the four that the engine can draw
/// into: `hwnd`, `window`, `window` and `ns_view`. The result is a function
/// of the handle alone; what it is for a given handle is not claimed.
#[verifier::external_body]
pub(crate) fn native_window(handle: &raw_window_handle::RawWindowHandle) -> (res: NativeWindow)
    ensures
        res == window_of(*handle),
{
    match handle {
        raw_window_handle::RawWindowHandle::Win32(h) => NativeWindow::Win32(h.hwnd.get() as i64),
        raw_window_handle::RawWindowHandle::Xlib(h) => NativeWindow::Xlib(h.window as i64),
        raw_window_handle::RawWindowHandle::Xcb(h) => NativeWindow::Xcb(h.window.get() as i64),
        raw_window_handle::RawWindowHandle::AppKit(h) => NativeWindow::AppKit(
            h.ns_view.as_ptr() as i64,
        ),
        raw_window_handle::RawWindowHandle::Wayland(_) => NativeWindow::Wayland,
        _ => NativeWindow::Other,
    }
}

/// The text of the failure for a Wayland window.
pub open spec fn wayland_text() -> Seq<char> {
    "Window embedding via --wid is not supported on Wayland."@
}

impl NativeWindow {
    /// The window that the raw handle stands for.
    pub fn of(handle: &raw_window_handle::RawWindowHandle) -> (res: NativeWindow)
        ensures
            res == window_of(*handle),
    {
        native_window(handle)
    }

    /// The identifier to hand to the engine, where the window has one.
    pub open spec fn identifier(self) -> Option<i64> {
        match self {
            NativeWindow::Win32(id) => Some(id),
            NativeWindow::Xlib(id) => Some(id),
            NativeWindow::Xcb(id) => Some(id),
            NativeWindow::AppKit(id) => Some(id),
            NativeWindow::Wayland => None,
            NativeWindow::Other => None,
        }
    }

    /// `res` is what asking for the window's identifier gives: the
    /// identifier, or the failure for a platform that is not supported, with
    /// a detail for Wayland and none for any other.
    pub open spec fn is_wid(self, res: Result<i64, Error>) -> bool {
        match self.identifier() {
            Some(id) => res == Ok::<i64, Error>(id),
            None => res matches Err(Error::UnsupportedPlatform(detail)) && detail@ == if self
                == NativeWindow::Wayland {
                wayland_text()
            } else {
                Seq::<char>::empty()
            },
        }
    }

    /// The native identifier of the window, for the engine to draw into.
    pub fn wid(self) -> (res: Result<i64, Error>)
        ensures
            self.is_wid(res),
    {
        match self {
            NativeWindow::Win32(id) => Ok(id),
            NativeWindow::Xlib(id) => Ok(id),
            NativeWindow::Xcb(id) => Ok(id),
            NativeWindow::AppKit(id) => Ok(id),
            NativeWindow::Wayland => Err(
                Error::UnsupportedPlatform(
                    String::from_str("Window embedding via --wid is not supported on Wayland."),
                ),
            ),
            NativeWindow::Other => Err(Error::UnsupportedPlatform(String::new())),
        }
    }
}

/// The native identifier of the window behind a raw handle: what `wid`
/// gives for the window that the handle stands for.
pub fn get_wid(raw_window_handle: raw_window_handle::RawWindowHandle) -> (res: Result<i64, Error>)
    ensures
        window_of(raw_window_handle).is_wid(res),
{
    NativeWindow::of(&raw_window_handle).wid()
}

/// The GL platform interfaces to try: WGL then EGL on Windows, CGL on macOS,
/// and elsewhere GLX then EGL for an X11 window, EGL for any other.
pub fn display_api_preference(platform: Platform, window: NativeWindow) -> (res: DisplayApi)
    ensures
        res == match platform {
            Platform::Windows => DisplayApi::WglThenEgl,
            Platform::MacOs => DisplayApi::Cgl,
            Platform::Unix => if window is Xlib || window is Xcb {
                DisplayApi::GlxThenEgl
            } else {
                DisplayApi::Egl
            },
        },
{
    match platform {
        Platform::Windows => DisplayApi::WglThenEgl,
        Platform::MacOs => DisplayApi::Cgl,
        Platform::Unix => match window {
            NativeWindow::Xlib(_) | NativeWindow::Xcb(_) => DisplayApi::GlxThenEgl,
            _ => DisplayApi::Egl,
        },
    }
}

} // verus!
