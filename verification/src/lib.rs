//! Native window chrome patches, computed and checked.
//!
//! The library decides what a live native window should look like given a
//! set of [`ChromeSettings`]: which Win32 style bits and DWM attributes to
//! write, which AppKit style-mask bits and titlebar options to set, and which
//! Motif window-manager hints to publish on X11.

mod error;
mod settings;
pub mod linux;
pub mod macos;
pub mod native;
mod version;
pub mod windows;

pub use error::{spec_message, Error};
pub use version::{
    current_windows_capabilities, decimal, digit_char, spec_is_windows_11_or_newer,
    spec_supports_dwm_visuals, spec_supports_system_backdrop, spec_version_text,
    spec_windows_capabilities, windows_capabilities, WindowsCapabilities, WindowsVersion,
};

pub use settings::{
    CaptionButtons, ChromeSettings, Color, LinuxChromeSettings, MacosChromeSettings,
    MacosTitlebarSeparatorStyle, WindowCornerPreference, WindowsBackdrop, WindowsChromeSettings,
};
