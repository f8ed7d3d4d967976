use std::collections::hash_map::DefaultHasher;
use std::hash::{Hash, Hasher};
use std::num::NonZeroIsize;
use std::ptr::NonNull;

use raw_window_handle::{
    AppKitWindowHandle, HandleError, RawDisplayHandle, RawWindowHandle, WaylandDisplayHandle,
    WaylandWindowHandle, Win32WindowHandle, XlibDisplayHandle, XlibWindowHandle,
};

use iced_window_chrome::native::{
    native_backend, select_backend, Backend, DisplayHandleKind, Platform, WindowHandleKind,
};
use iced_window_chrome::{
    CaptionButtons, ChromeSettings, Color, Error, LinuxChromeSettings, MacosChromeSettings,
    WindowsChromeSettings,
};

fn hash_of<T: Hash>(value: &T) -> u64 {
    let mut hasher = DefaultHasher::new();
    value.hash(&mut hasher);
    hasher.finish()
}

#[test]
fn caption_buttons_default_to_shown() {
    assert_eq!(
        CaptionButtons::default(),
        CaptionButtons { close: true, minimize: true, maximize: true }
    );
}

#[test]
fn section_defaults() {
    let linux = LinuxChromeSettings::default();
    assert!(linux.decorations);
    assert_eq!(linux.buttons, CaptionButtons::default());

    let windows = WindowsChromeSettings::default();
    assert!(windows.caption && windows.border);
    assert_eq!(windows.corner_preference, None);
    assert_eq!(windows.border_color, None);
    assert_eq!(windows.title_background_color, None);
    assert_eq!(windows.title_text_color, None);
    assert_eq!(windows.backdrop, None);

    let macos = MacosChromeSettings::default();
    assert!(macos.titlebar && macos.title && macos.traffic_lights);
    assert!(!macos.titlebar_transparent && !macos.fullsize_content_view);
    assert_eq!(macos.titlebar_height, None);
    assert_eq!(macos.traffic_light_offset_x, None);
    assert_eq!(macos.traffic_light_offset_y, None);
    assert_eq!(macos.titlebar_separator_style, None);
}

#[test]
fn chrome_settings_default_is_made_of_section_defaults() {
    let settings = ChromeSettings::default();
    assert_eq!(settings.windows, WindowsChromeSettings::default());
    assert_eq!(settings.macos, MacosChromeSettings::default());
    assert_eq!(settings.linux, LinuxChromeSettings::default());
}

#[test]
fn equal_settings_hash_alike_and_changes_are_seen() {
    let a = ChromeSettings::default();
    let b = ChromeSettings::default();
    assert_eq!(hash_of(&a), hash_of(&b));
    let mut c = ChromeSettings::default();
    c.windows.border_color =
        Some(Color { r: 0.25f32.to_bits(), g: 0.5f32.to_bits(), b: 0.75f32.to_bits(), a: 1.0f32.to_bits() });
    assert_ne!(a, c);
    let mut d = ChromeSettings::default();
    d.macos.titlebar_height = Some(28.0f64.to_bits());
    assert_ne!(a, d);
}

#[test]
fn macos_lengths_compare_as_floats() {
    let zero = MacosChromeSettings { titlebar_height: Some(0.0f64.to_bits()), ..MacosChromeSettings::default() };
    let negative_zero =
        MacosChromeSettings { titlebar_height: Some((-0.0f64).to_bits()), ..MacosChromeSettings::default() };
    assert_eq!(zero, negative_zero);
    let nan = MacosChromeSettings {
        traffic_light_offset_x: Some(f64::NAN.to_bits()),
        ..MacosChromeSettings::default()
    };
    assert_ne!(nan, nan);
    assert_ne!(zero, MacosChromeSettings::default());
    let lined = MacosChromeSettings {
        titlebar_separator_style: Some(iced_window_chrome::MacosTitlebarSeparatorStyle::Line),
        ..MacosChromeSettings::default()
    };
    assert_ne!(lined, MacosChromeSettings::default());
    assert_eq!(lined, lined);
}

#[test]
fn error_messages() {
    assert_eq!(Error::NoWindowAvailable.message(), "no live iced window was available to patch");
    assert_eq!(
        Error::UnsupportedWindowHandle("non-Win32").message(),
        "unsupported native window handle: non-Win32"
    );
    assert_eq!(Error::Windows("SetWindowPos").message(), "Windows API error: SetWindowPos");
    assert_eq!(
        Error::Macos("invalid NSView pointer").message(),
        "macOS AppKit error: invalid NSView pointer"
    );
    assert_eq!(
        Error::Linux("failed to open X11 connection").message(),
        "Linux/X11 error: failed to open X11 connection"
    );
    assert_eq!(
        Error::WindowHandle(HandleError::Unavailable).message(),
        "failed to access the native window handle: the underlying handle is not available"
    );
    assert_eq!(
        Error::WindowHandle(HandleError::NotSupported).message(),
        "failed to access the native window handle: the underlying handle cannot be represented using the types in this crate"
    );
}

#[test]
fn backend_selection_per_platform() {
    assert!(matches!(select_backend(Platform::Windows, DisplayHandleKind::Other, WindowHandleKind::Win32), Ok(Backend::Win32)));
    assert!(matches!(
        select_backend(Platform::Windows, DisplayHandleKind::Other, WindowHandleKind::Xlib),
        Err(Error::UnsupportedWindowHandle("non-Win32"))
    ));
    assert!(matches!(select_backend(Platform::Macos, DisplayHandleKind::Other, WindowHandleKind::AppKit), Ok(Backend::AppKit)));
    assert!(matches!(
        select_backend(Platform::Macos, DisplayHandleKind::Xlib, WindowHandleKind::Win32),
        Err(Error::UnsupportedWindowHandle("non-AppKit"))
    ));
    assert!(matches!(select_backend(Platform::Linux, DisplayHandleKind::Xlib, WindowHandleKind::Xlib), Ok(Backend::Xlib)));
    assert!(matches!(select_backend(Platform::Linux, DisplayHandleKind::Wayland, WindowHandleKind::Wayland), Ok(Backend::Wayland)));
    assert!(matches!(
        select_backend(Platform::Linux, DisplayHandleKind::Wayland, WindowHandleKind::Xlib),
        Err(Error::UnsupportedWindowHandle("non-Xlib Linux"))
    ));
    assert!(matches!(
        select_backend(Platform::Linux, DisplayHandleKind::Other, WindowHandleKind::Wayland),
        Err(Error::UnsupportedWindowHandle("non-Xlib Linux"))
    ));
    assert!(matches!(select_backend(Platform::Other, DisplayHandleKind::Other, WindowHandleKind::Other), Ok(Backend::Unpatched)));
}

#[test]
fn native_backend_reads_the_raw_handles() {
    let win32 = RawWindowHandle::Win32(Win32WindowHandle::new(NonZeroIsize::new(42).unwrap()));
    let appkit = RawWindowHandle::AppKit(AppKitWindowHandle::new(NonNull::dangling()));
    let xlib_window = RawWindowHandle::Xlib(XlibWindowHandle::new(7));
    let xlib_display = RawDisplayHandle::Xlib(XlibDisplayHandle::new(None, 0));
    let wayland_window = RawWindowHandle::Wayland(WaylandWindowHandle::new(NonNull::dangling()));
    let wayland_display = RawDisplayHandle::Wayland(WaylandDisplayHandle::new(NonNull::dangling()));

    assert!(matches!(native_backend(Platform::Windows, None, &win32), Ok(Backend::Win32)));
    assert!(matches!(
        native_backend(Platform::Windows, None, &appkit),
        Err(Error::UnsupportedWindowHandle("non-Win32"))
    ));
    assert!(matches!(native_backend(Platform::Macos, None, &appkit), Ok(Backend::AppKit)));
    assert!(matches!(
        native_backend(Platform::Linux, Some(&xlib_display), &xlib_window),
        Ok(Backend::Xlib)
    ));
    assert!(matches!(
        native_backend(Platform::Linux, Some(&wayland_display), &wayland_window),
        Ok(Backend::Wayland)
    ));
    assert!(matches!(
        native_backend(Platform::Linux, Some(&wayland_display), &xlib_window),
        Err(Error::UnsupportedWindowHandle("non-Xlib Linux"))
    ));
    assert!(matches!(
        native_backend(Platform::Linux, None, &xlib_window),
        Err(Error::UnsupportedWindowHandle("non-Xlib Linux"))
    ));
    assert!(matches!(native_backend(Platform::Other, None, &win32), Ok(Backend::Unpatched)));
}
