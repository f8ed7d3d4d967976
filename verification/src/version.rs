//! The Windows runtime version and the chrome features that depend on it.

use vstd::prelude::*;
use vstd::string::*;

verus! {

/// The decimal digit `d` (which is below 10).
pub open spec fn digit_char(d: nat) -> char {
    if d == 0 {
        '0'
    } else if d == 1 {
        '1'
    } else if d == 2 {
        '2'
    } else if d == 3 {
        '3'
    } else if d == 4 {
        '4'
    } else if d == 5 {
        '5'
    } else if d == 6 {
        '6'
    } else if d == 7 {
        '7'
    } else if d == 8 {
        '8'
    } else {
        '9'
    }
}

/// The decimal notation of `n`, without leading zeros.
pub open spec fn decimal(n: nat) -> Seq<char>
    decreases n,
{
    if n < 10 {
        seq![digit_char(n)]
    } else {
        decimal(n / 10).push(digit_char(n % 10))
    }
}

fn digit_str(d: u32) -> (s: &'static str)
    requires
        d < 10,
    ensures
        s@ == seq![digit_char(d as nat)],
{
    proof {
        reveal_strlit("0");
        reveal_strlit("1");
        reveal_strlit("2");
        reveal_strlit("3");
        reveal_strlit("4");
        reveal_strlit("5");
        reveal_strlit("6");
        reveal_strlit("7");
        reveal_strlit("8");
        reveal_strlit("9");
    }
    if d == 0 {
        "0"
    } else if d == 1 {
        "1"
    } else if d == 2 {
        "2"
    } else if d == 3 {
        "3"
    } else if d == 4 {
        "4"
    } else if d == 5 {
        "5"
    } else if d == 6 {
        "6"
    } else if d == 7 {
        "7"
    } else if d == 8 {
        "8"
    } else {
        "9"
    }
}

fn push_decimal(s: &mut String, n: u32)
    ensures
        final(s)@ == old(s)@ + decimal(n as nat),
    decreases n,
{
    if n >= 10 {
        push_decimal(s, n / 10);
    }
    s.append(digit_str(n % 10));
    assert(final(s)@ =~= old(s)@ + decimal(n as nat));
}

/// The current Windows runtime version.
#[derive(Debug, Clone, Copy, PartialEq, Eq, Hash, Structural)]
pub struct WindowsVersion {
    pub major: u32,
    pub minor: u32,
    pub build: u32,
}

/// Windows 11 reports itself as version 10.0 with a build number of 22000
/// or more.
pub open spec fn spec_is_windows_11_or_newer(version: WindowsVersion) -> bool {
    version.major > 10 || (version.major == 10 && version.build >= 22_000)
}

/// The `major.minor.build` notation of a version.
pub open spec fn spec_version_text(version: WindowsVersion) -> Seq<char> {
    decimal(version.major as nat) + seq!['.'] + decimal(version.minor as nat) + seq!['.']
        + decimal(version.build as nat)
}

impl WindowsVersion {
    /// Returns `true` for Windows 11 builds and newer.
    pub fn is_windows_11_or_newer(self) -> (r: bool)
        ensures
            r == spec_is_windows_11_or_newer(self),
    {
        self.major > 10 || (self.major == 10 && self.build >= 22_000)
    }

    /// The version as `major.minor.build`, e.g. `10.0.22631`.
    pub fn to_display_string(&self) -> (s: String)
        ensures
            s@ == spec_version_text(*self),
    {
        proof {
            reveal_strlit(".");
        }
        let mut s = String::new();
        push_decimal(&mut s, self.major);
        s.append(".");
        push_decimal(&mut s, self.minor);
        s.append(".");
        push_decimal(&mut s, self.build);
        assert(s@ =~= spec_version_text(*self));
        s
    }
}

/// Windows runtime support flags for version-dependent chrome features.
#[derive(Debug, Clone, Copy, PartialEq, Eq, Hash, Structural)]
pub struct WindowsCapabilities {
    pub version: WindowsVersion,
    pub corner_preference: bool,
    pub border_color: bool,
    pub title_background_color: bool,
    pub title_text_color: bool,
}

/// The Windows 11 DWM visual chrome APIs are there when the corner
/// preference and all three colors can be set.
pub open spec fn spec_supports_dwm_visuals(capabilities: WindowsCapabilities) -> bool {
    capabilities.corner_preference && capabilities.border_color
        && capabilities.title_background_color && capabilities.title_text_color
}

impl WindowsCapabilities {
    /// Returns `true` when the Windows 11 DWM visual chrome APIs are available.
    pub fn supports_dwm_visuals(self) -> (r: bool)
        ensures
            r == spec_supports_dwm_visuals(self),
    {
        self.corner_preference && self.border_color && self.title_background_color
            && self.title_text_color
    }
}

/// Windows 11 build 22621 and later accept a system backdrop material.
pub open spec fn spec_supports_system_backdrop(version: WindowsVersion) -> bool {
    version.major > 10 || (version.major == 10 && version.build >= 22_621)
}

impl WindowsCapabilities {
    /// Returns `true` when the system backdrop material can be set
    /// (`DWMWA_SYSTEMBACKDROP_TYPE`, Windows 11 build 22621 and later).
    pub fn supports_system_backdrop(self) -> (r: bool)
        ensures
            r == spec_supports_system_backdrop(self.version),
    {
        self.version.major > 10 || (self.version.major == 10 && self.version.build >= 22_621)
    }
}

/// The chrome capabilities of a Windows system of the given version: the
/// corner preference and the border, caption and text colors are DWM
/// attributes of Windows 11 (build 22000 and later).
pub open spec fn spec_windows_capabilities(version: WindowsVersion) -> WindowsCapabilities {
    let windows_11 = spec_is_windows_11_or_newer(version);
    WindowsCapabilities {
        version,
        corner_preference: windows_11,
        border_color: windows_11,
        title_background_color: windows_11,
        title_text_color: windows_11,
    }
}

/// The chrome capabilities of a Windows system of the given version.
pub fn windows_capabilities(version: WindowsVersion) -> (c: WindowsCapabilities)
    ensures
        c == spec_windows_capabilities(version),
        c.version == version,
        spec_supports_dwm_visuals(c) == spec_is_windows_11_or_newer(version),
{
    let windows_11 = version.is_windows_11_or_newer();
    WindowsCapabilities {
        version,
        corner_preference: windows_11,
        border_color: windows_11,
        title_background_color: windows_11,
        title_text_color: windows_11,
    }
}

/// Returns the capabilities of the running Windows system, given the
/// version that was read from it; `None` when not running on Windows
/// (no version was read).
pub fn current_windows_capabilities(running: Option<WindowsVersion>) -> (r: Option<
    WindowsCapabilities,
>)
    ensures
        running is None ==> r is None,
        running matches Some(version) ==> r == Some(spec_windows_capabilities(version)),
{
    match running {
        Some(version) => Some(windows_capabilities(version)),
        None => None,
    }
}

} // verus!
