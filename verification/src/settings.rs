use vstd::prelude::*;
use vstd::std_specs::cmp::PartialEqSpecImpl;

verus! {

/// Whether the bits are those of a 32-bit float NaN: all exponent bits set
/// and a nonzero fraction.
pub open spec fn spec_f32_bits_is_nan(bits: u32) -> bool {
    bits & 0x7F80_0000 == 0x7F80_0000 && bits & 0x007F_FFFF != 0
}

/// Whether two 32-bit floats, given by their bits, compare equal with `==`:
/// neither is NaN, and they are the same value (`0.0` and `-0.0` being the
/// same).
pub open spec fn spec_f32_bits_eq(a: u32, b: u32) -> bool {
    !spec_f32_bits_is_nan(a) && !spec_f32_bits_is_nan(b) && (a == b || (a | b) & 0x7FFF_FFFF
        == 0)
}

/// Whether the bits are those of a 64-bit float NaN.
pub open spec fn spec_f64_bits_is_nan(bits: u64) -> bool {
    bits & 0x7FF0_0000_0000_0000 == 0x7FF0_0000_0000_0000 && bits & 0x000F_FFFF_FFFF_FFFF != 0
}

/// Whether two 64-bit floats, given by their bits, compare equal with `==`.
pub open spec fn spec_f64_bits_eq(a: u64, b: u64) -> bool {
    !spec_f64_bits_is_nan(a) && !spec_f64_bits_is_nan(b) && (a == b || (a | b)
        & 0x7FFF_FFFF_FFFF_FFFF == 0)
}

/// Whether two optional 64-bit floats, given by their bits, compare equal.
pub open spec fn spec_option_f64_bits_eq(a: Option<u64>, b: Option<u64>) -> bool {
    match (a, b) {
        (None, None) => true,
        (Some(x), Some(y)) => spec_f64_bits_eq(x, y),
        _ => false,
    }
}

/// Whether two 32-bit floats, given by their bits, compare equal with `==`.
pub fn f32_bits_eq(a: u32, b: u32) -> (r: bool)
    ensures
        r == spec_f32_bits_eq(a, b),
{
    let a_nan = a & 0x7F80_0000 == 0x7F80_0000 && a & 0x007F_FFFF != 0;
    let b_nan = b & 0x7F80_0000 == 0x7F80_0000 && b & 0x007F_FFFF != 0;
    !a_nan && !b_nan && (a == b || (a | b) & 0x7FFF_FFFF == 0)
}

/// Whether two 64-bit floats, given by their bits, compare equal with `==`.
pub fn f64_bits_eq(a: u64, b: u64) -> (r: bool)
    ensures
        r == spec_f64_bits_eq(a, b),
{
    let a_nan = a & 0x7FF0_0000_0000_0000 == 0x7FF0_0000_0000_0000 && a & 0x000F_FFFF_FFFF_FFFF
        != 0;
    let b_nan = b & 0x7FF0_0000_0000_0000 == 0x7FF0_0000_0000_0000 && b & 0x000F_FFFF_FFFF_FFFF
        != 0;
    !a_nan && !b_nan && (a == b || (a | b) & 0x7FFF_FFFF_FFFF_FFFF == 0)
}

fn option_f64_bits_eq(a: Option<u64>, b: Option<u64>) -> (r: bool)
    ensures
        r == spec_option_f64_bits_eq(a, b),
{
    match (a, b) {
        (None, None) => true,
        (Some(x), Some(y)) => f64_bits_eq(x, y),
        _ => false,
    }
}

/// An RGBA color whose four channels (nominally between 0 and 1) are each
/// held as the IEEE-754 bit pattern of an `f32` (as `f32::to_bits` gives
/// it).
///
/// Two colors are equal when their channels compare equal as floats;
/// hashing goes by the bits.
#[derive(Debug, Clone, Copy, Hash)]
pub struct Color {
    pub r: u32,
    pub g: u32,
    pub b: u32,
    pub a: u32,
}

impl PartialEq for Color {
    fn eq(&self, other: &Self) -> (r: bool) {
        f32_bits_eq(self.r, other.r) && f32_bits_eq(self.g, other.g) && f32_bits_eq(
            self.b,
            other.b,
        ) && f32_bits_eq(self.a, other.a)
    }
}

impl PartialEqSpecImpl for Color {
    open spec fn obeys_eq_spec() -> bool {
        true
    }

    open spec fn eq_spec(&self, other: &Self) -> bool {
        spec_f32_bits_eq(self.r, other.r) && spec_f32_bits_eq(self.g, other.g) && spec_f32_bits_eq(
            self.b,
            other.b,
        ) && spec_f32_bits_eq(self.a, other.a)
    }
}

/// Windows caption button visibility.
#[derive(Debug, Clone, Copy, PartialEq, Eq, Hash, Structural)]
pub struct CaptionButtons {
    pub close: bool,
    pub minimize: bool,
    pub maximize: bool,
}

impl Default for CaptionButtons {
    /// All three caption buttons are shown.
    fn default() -> (r: Self)
        ensures
            r == (CaptionButtons { close: true, minimize: true, maximize: true }),
    {
        CaptionButtons { close: true, minimize: true, maximize: true }
    }
}

/// Windows 11 corner preference.
#[derive(Debug, Clone, Copy, PartialEq, Eq, Hash, Structural)]
pub enum WindowCornerPreference {
    Default,
    DoNotRound,
    Round,
    RoundSmall,
}

/// System-managed Windows backdrop material.
#[derive(Debug, Clone, Copy, PartialEq, Eq, Hash, Structural)]
pub enum WindowsBackdrop {
    /// No system backdrop material (named `None` in the Windows API).
    NoBackdrop,
    Mica,
    Acrylic,
    MicaAlt,
}

/// Native macOS titlebar separator style.
#[derive(Debug, Clone, Copy, PartialEq, Eq, Hash, Structural)]
pub enum MacosTitlebarSeparatorStyle {
    Automatic,
    /// No separator line (AppKit's `NSTitlebarSeparatorStyleNone`).
    NoSeparator,
    Line,
    Shadow,
}

/// Native Linux/X11 window manager chrome settings.
#[derive(Debug, Clone, Copy, PartialEq, Eq, Hash, Structural)]
pub struct LinuxChromeSettings {
    pub decorations: bool,
    pub buttons: CaptionButtons,
}

impl Default for LinuxChromeSettings {
    /// Decorations on, every button shown.
    fn default() -> (r: Self)
        ensures
            r == (LinuxChromeSettings {
                decorations: true,
                buttons: CaptionButtons { close: true, minimize: true, maximize: true },
            }),
    {
        LinuxChromeSettings { decorations: true, buttons: CaptionButtons::default() }
    }
}

/// Native Windows window chrome settings.
#[derive(Debug, Clone, Copy, PartialEq, Hash)]
pub struct WindowsChromeSettings {
    pub caption: bool,
    pub border: bool,
    pub buttons: CaptionButtons,
    pub corner_preference: Option<WindowCornerPreference>,
    pub border_color: Option<Color>,
    pub title_background_color: Option<Color>,
    pub title_text_color: Option<Color>,
    pub backdrop: Option<WindowsBackdrop>,
}

impl Default for WindowsChromeSettings {
    /// Caption and border on, every button shown, nothing else overridden.
    fn default() -> (r: Self)
        ensures
            r == (WindowsChromeSettings {
                caption: true,
                border: true,
                buttons: CaptionButtons { close: true, minimize: true, maximize: true },
                corner_preference: None,
                border_color: None,
                title_background_color: None,
                title_text_color: None,
                backdrop: None,
            }),
    {
        WindowsChromeSettings {
            caption: true,
            border: true,
            buttons: CaptionButtons::default(),
            corner_preference: None,
            border_color: None,
            title_background_color: None,
            title_text_color: None,
            backdrop: None,
        }
    }
}

/// Native macOS titlebar settings.
///
/// The three geometric values are lengths in points, each held as the
/// IEEE-754 bit pattern of an `f64` (as `f64::to_bits` gives it). Two
/// settings are equal when their flags and separator style are equal and
/// their lengths compare equal as floats; hashing goes by the bits.
#[derive(Debug, Clone, Copy, Hash)]
pub struct MacosChromeSettings {
    pub titlebar: bool,
    pub title: bool,
    pub traffic_lights: bool,
    pub titlebar_transparent: bool,
    pub fullsize_content_view: bool,
    pub titlebar_height: Option<u64>,
    pub traffic_light_offset_x: Option<u64>,
    pub traffic_light_offset_y: Option<u64>,
    pub titlebar_separator_style: Option<MacosTitlebarSeparatorStyle>,
}

impl PartialEq for MacosChromeSettings {
    fn eq(&self, other: &Self) -> (r: bool) {
        let same_style = match (self.titlebar_separator_style, other.titlebar_separator_style) {
            (None, None) => true,
            (Some(x), Some(y)) => x == y,
            _ => false,
        };
        self.titlebar == other.titlebar && self.title == other.title && self.traffic_lights
            == other.traffic_lights && self.titlebar_transparent == other.titlebar_transparent
            && self.fullsize_content_view == other.fullsize_content_view && option_f64_bits_eq(
            self.titlebar_height,
            other.titlebar_height,
        ) && option_f64_bits_eq(self.traffic_light_offset_x, other.traffic_light_offset_x)
            && option_f64_bits_eq(self.traffic_light_offset_y, other.traffic_light_offset_y)
            && same_style
    }
}

impl PartialEqSpecImpl for MacosChromeSettings {
    open spec fn obeys_eq_spec() -> bool {
        true
    }

    open spec fn eq_spec(&self, other: &Self) -> bool {
        &&& self.titlebar == other.titlebar
        &&& self.title == other.title
        &&& self.traffic_lights == other.traffic_lights
        &&& self.titlebar_transparent == other.titlebar_transparent
        &&& self.fullsize_content_view == other.fullsize_content_view
        &&& spec_option_f64_bits_eq(self.titlebar_height, other.titlebar_height)
        &&& spec_option_f64_bits_eq(self.traffic_light_offset_x, other.traffic_light_offset_x)
        &&& spec_option_f64_bits_eq(self.traffic_light_offset_y, other.traffic_light_offset_y)
        &&& self.titlebar_separator_style == other.titlebar_separator_style
    }
}

impl Default for MacosChromeSettings {
    /// A visible, titled, opaque titlebar with traffic lights, and no
    /// geometric overrides.
    fn default() -> (r: Self)
        ensures
            r == (MacosChromeSettings {
                titlebar: true,
                title: true,
                traffic_lights: true,
                titlebar_transparent: false,
                fullsize_content_view: false,
                titlebar_height: None,
                traffic_light_offset_x: None,
                traffic_light_offset_y: None,
                titlebar_separator_style: None,
            }),
    {
        MacosChromeSettings {
            titlebar: true,
            title: true,
            traffic_lights: true,
            titlebar_transparent: false,
            fullsize_content_view: false,
            titlebar_height: None,
            traffic_light_offset_x: None,
            traffic_light_offset_y: None,
            titlebar_separator_style: None,
        }
    }
}

/// Cross-platform chrome settings. Each platform reads only its own section.
#[derive(Debug, Clone, Copy, PartialEq, Hash)]
pub struct ChromeSettings {
    pub windows: WindowsChromeSettings,
    pub macos: MacosChromeSettings,
    pub linux: LinuxChromeSettings,
}

impl Default for ChromeSettings {
    /// The default section of every platform.
    fn default() -> (r: Self)
        ensures
            r.windows == (WindowsChromeSettings {
                caption: true,
                border: true,
                buttons: CaptionButtons { close: true, minimize: true, maximize: true },
                corner_preference: None,
                border_color: None,
                title_background_color: None,
                title_text_color: None,
                backdrop: None,
            }),
            r.macos == (MacosChromeSettings {
                titlebar: true,
                title: true,
                traffic_lights: true,
                titlebar_transparent: false,
                fullsize_content_view: false,
                titlebar_height: None,
                traffic_light_offset_x: None,
                traffic_light_offset_y: None,
                titlebar_separator_style: None,
            }),
            r.linux == (LinuxChromeSettings {
                decorations: true,
                buttons: CaptionButtons { close: true, minimize: true, maximize: true },
            }),
    {
        ChromeSettings {
            windows: WindowsChromeSettings::default(),
            macos: MacosChromeSettings::default(),
            linux: LinuxChromeSettings::default(),
        }
    }
}

} // verus!
