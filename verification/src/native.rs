//! Which native patch a live window gets, from the platform and the kinds of
//! native handles the window hands out.

use vstd::prelude::*;

use raw_window_handle::{RawDisplayHandle, RawWindowHandle};

use crate::error::Error;

verus! {

/// A `raw-window-handle` window handle, carried through opaquely.
#[verifier::external_type_specification]
#[verifier::external_body]
pub struct ExRawWindowHandle(RawWindowHandle);

/// A `raw-window-handle` display handle, carried through opaquely.
#[verifier::external_type_specification]
#[verifier::external_body]
pub struct ExRawDisplayHandle(RawDisplayHandle);

/// The operating system the library runs on.
#[derive(Debug, Clone, Copy, PartialEq, Eq, Hash, Structural)]
pub enum Platform {
    Windows,
    Macos,
    Linux,
    /// Any other system: windows there are left as they are.
    Other,
}

/// The kinds of native window handle that the patches tell apart.
#[derive(Debug, Clone, Copy, PartialEq, Eq, Hash, Structural)]
pub enum WindowHandleKind {
    Win32,
    AppKit,
    Xlib,
    Wayland,
    Other,
}

/// The kinds of native display handle that the patches tell apart.
#[derive(Debug, Clone, Copy, PartialEq, Eq, Hash, Structural)]
pub enum DisplayHandleKind {
    Xlib,
    Wayland,
    Other,
}

/// The native patch a window gets.
#[derive(Debug, Clone, Copy, PartialEq, Eq, Hash, Structural)]
pub enum Backend {
    /// Win32 style bits and DWM attributes.
    Win32,
    /// AppKit window style and titlebar.
    AppKit,
    /// X11 Motif window-manager hints.
    Xlib,
    /// Nothing can be patched on Wayland; the patch is a no-op.
    Wayland,
    /// The platform is not one that the library patches.
    Unpatched,
}

/// The patch for a window on `platform` whose handles are of the given
/// kinds: Windows needs a Win32 window, macOS an AppKit window, Linux an
/// Xlib window on an Xlib display or a Wayland window on a Wayland display;
/// any other platform is left unpatched. The display kind matters on Linux
/// only.
pub open spec fn spec_select_backend(
    platform: Platform,
    display: DisplayHandleKind,
    window: WindowHandleKind,
) -> Result<Backend, Error> {
    match platform {
        Platform::Windows => if window == WindowHandleKind::Win32 {
            Ok(Backend::Win32)
        } else {
            Err(Error::UnsupportedWindowHandle("non-Win32"))
        },
        Platform::Macos => if window == WindowHandleKind::AppKit {
            Ok(Backend::AppKit)
        } else {
            Err(Error::UnsupportedWindowHandle("non-AppKit"))
        },
        Platform::Linux => if display == DisplayHandleKind::Xlib && window
            == WindowHandleKind::Xlib {
            Ok(Backend::Xlib)
        } else if display == DisplayHandleKind::Wayland && window == WindowHandleKind::Wayland {
            Ok(Backend::Wayland)
        } else {
            Err(Error::UnsupportedWindowHandle("non-Xlib Linux"))
        },
        Platform::Other => Ok(Backend::Unpatched),
    }
}

/// The patch for a window on `platform` whose handles are of the given
/// kinds.
pub fn select_backend(
    platform: Platform,
    display: DisplayHandleKind,
    window: WindowHandleKind,
) -> (r: Result<Backend, Error>)
    ensures
        r == spec_select_backend(platform, display, window),
{
    match platform {
        Platform::Windows => {
            if window == WindowHandleKind::Win32 {
                Ok(Backend::Win32)
            } else {
                Err(Error::UnsupportedWindowHandle("non-Win32"))
            }
        },
        Platform::Macos => {
            if window == WindowHandleKind::AppKit {
                Ok(Backend::AppKit)
            } else {
                Err(Error::UnsupportedWindowHandle("non-AppKit"))
            }
        },
        Platform::Linux => {
            if display == DisplayHandleKind::Xlib && window == WindowHandleKind::Xlib {
                Ok(Backend::Xlib)
            } else if display == DisplayHandleKind::Wayland && window
                == WindowHandleKind::Wayland {
                Ok(Backend::Wayland)
            } else {
                Err(Error::UnsupportedWindowHandle("non-Xlib Linux"))
            }
        },
        Platform::Other => Ok(Backend::Unpatched),
    }
}

/// The kind of a `raw-window-handle` window handle, which depends on its
/// variant alone: `Win32`, `AppKit`, `Xlib` and `Wayland` are the kinds of
/// the same name, every other variant is `Other`.
pub uninterp spec fn raw_window_kind(handle: RawWindowHandle) -> WindowHandleKind;

/// The kind of a `raw-window-handle` display handle, which depends on its
/// variant alone: `Xlib` and `Wayland` are the kinds of the same name, every
/// other variant is `Other`.
pub uninterp spec fn raw_display_kind(handle: RawDisplayHandle) -> DisplayHandleKind;

/// Tells apart the variants of a `raw-window-handle` `RawWindowHandle`
/// (`Win32`, `AppKit`, `Xlib`, `Wayland`, anything else); the contract
/// names the result as the handle's kind.
#[verifier::external_body]
fn window_handle_kind(handle: &RawWindowHandle) -> (kind: WindowHandleKind)
    ensures
        kind == raw_window_kind(*handle),
{
    match handle {
        RawWindowHandle::Win32(_) => WindowHandleKind::Win32,
        RawWindowHandle::AppKit(_) => WindowHandleKind::AppKit,
        RawWindowHandle::Xlib(_) => WindowHandleKind::Xlib,
        RawWindowHandle::Wayland(_) => WindowHandleKind::Wayland,
        _ => WindowHandleKind::Other,
    }
}

/// Tells apart the variants of a `raw-window-handle` `RawDisplayHandle`
/// (`Xlib`, `Wayland`, anything else); the contract names the result as the
/// handle's kind.
#[verifier::external_body]
fn display_handle_kind(handle: &RawDisplayHandle) -> (kind: DisplayHandleKind)
    ensures
        kind == raw_display_kind(*handle),
{
    match handle {
        RawDisplayHandle::Xlib(_) => DisplayHandleKind::Xlib,
        RawDisplayHandle::Wayland(_) => DisplayHandleKind::Wayland,
        _ => DisplayHandleKind::Other,
    }
}

/// The patch for a window on `platform`, from its native window handle and,
/// where it was asked for (on Linux), its display handle; a missing display
/// handle counts as one of another kind.
///
/// The result is the selection for the kinds of the two handles; on a
/// platform the library does not patch it is always `Unpatched`.
pub fn native_backend(
    platform: Platform,
    display: Option<&RawDisplayHandle>,
    window: &RawWindowHandle,
) -> (r: Result<Backend, Error>)
    ensures
        r == spec_select_backend(
            platform,
            match display {
                Some(d) => raw_display_kind(*d),
                None => DisplayHandleKind::Other,
            },
            raw_window_kind(*window),
        ),
        platform == Platform::Other ==> r == Ok::<Backend, Error>(Backend::Unpatched),
{
    let window_kind = window_handle_kind(window);
    let display_kind = match display {
        Some(handle) => display_handle_kind(handle),
        None => DisplayHandleKind::Other,
    };
    select_backend(platform, display_kind, window_kind)
}

} // verus!
