use vstd::prelude::*;
use vstd::string::*;

use raw_window_handle::HandleError;

verus! {

/// The error that `raw-window-handle` reports when a native handle cannot be
/// obtained. Carried through opaquely.
#[verifier::external_type_specification]
#[verifier::external_body]
pub struct ExHandleError(HandleError);

/// Errors produced while trying to patch a live native window.
#[derive(Debug)]
pub enum Error {
    NoWindowAvailable,
    WindowHandle(HandleError),
    UnsupportedWindowHandle(&'static str),
    Windows(&'static str),
    Macos(&'static str),
    Linux(&'static str),
}

/// The human-readable text of every error whose text the library fixes by
/// itself: all but `WindowHandle`, whose text ends with that of the handle
/// error it carries.
pub open spec fn spec_message(e: Error) -> Seq<char> {
    match e {
        Error::NoWindowAvailable => "no live iced window was available to patch"@,
        Error::WindowHandle(_) => "failed to access the native window handle: "@,
        Error::UnsupportedWindowHandle(kind) => "unsupported native window handle: "@ + kind@,
        Error::Windows(message) => "Windows API error: "@ + message@,
        Error::Macos(message) => "macOS AppKit error: "@ + message@,
        Error::Linux(message) => "Linux/X11 error: "@ + message@,
    }
}

impl Error {
    /// The human-readable description of this error.
    ///
    /// For `WindowHandle`, the fixed prefix is followed by the `Display` text
    /// of the carried handle error.
    pub fn message(&self) -> (s: String)
        ensures
            !(self is WindowHandle) ==> s@ == spec_message(*self),
            self matches Error::WindowHandle(inner) ==> exists|t: String|
                #[trigger] to_string_from_display_ensures::<HandleError>(&inner, t)
                    && s@ == spec_message(*self) + t@,
    {
        match self {
            Error::NoWindowAvailable => String::from_str("no live iced window was available to patch"),
            Error::WindowHandle(inner) => {
                let detail = inner.to_string();
                let mut s = String::from_str("failed to access the native window handle: ");
                s.append(detail.as_str());
                s
            },
            Error::UnsupportedWindowHandle(kind) => {
                let mut s = String::from_str("unsupported native window handle: ");
                s.append(kind);
                s
            },
            Error::Windows(message) => {
                let mut s = String::from_str("Windows API error: ");
                s.append(message);
                s
            },
            Error::Macos(message) => {
                let mut s = String::from_str("macOS AppKit error: ");
                s.append(message);
                s
            },
            Error::Linux(message) => {
                let mut s = String::from_str("Linux/X11 error: ");
                s.append(message);
                s
            },
        }
    }
}

} // verus!
