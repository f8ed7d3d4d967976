//! What a Win32 window's style bits and DWM attributes become under a set of
//! [`WindowsChromeSettings`].

use vstd::prelude::*;

use crate::error::Error;
use crate::settings::{
    CaptionButtons, WindowCornerPreference, WindowsBackdrop, WindowsChromeSettings,
};

verus! {

/// `WS_BORDER`: the window has a thin-line border.
pub const WS_BORDER: u32 = 0x0080_0000;

/// `WS_DLGFRAME`: the dialog-frame half of `WS_CAPTION`.
pub const WS_DLGFRAME: u32 = 0x0040_0000;

/// `WS_CAPTION`: the window has a title bar (`WS_BORDER | WS_DLGFRAME`).
pub const WS_CAPTION: u32 = 0x00C0_0000;

/// `WS_SYSMENU`: the window has a window menu on its title bar.
pub const WS_SYSMENU: u32 = 0x0008_0000;

/// `WS_MINIMIZEBOX`: the window has a minimize button.
pub const WS_MINIMIZEBOX: u32 = 0x0002_0000;

/// `WS_MAXIMIZEBOX`: the window has a maximize button.
pub const WS_MAXIMIZEBOX: u32 = 0x0001_0000;

/// Every style bit that the chrome settings decide.
pub const CHROME_STYLE_BITS: u32 = 0x00CB_0000;

/// `DWMWA_WINDOW_CORNER_PREFERENCE`.
pub const DWMWA_WINDOW_CORNER_PREFERENCE: u32 = 33;

/// `DWMWA_BORDER_COLOR`.
pub const DWMWA_BORDER_COLOR: u32 = 34;

/// `DWMWA_CAPTION_COLOR`.
pub const DWMWA_CAPTION_COLOR: u32 = 35;

/// `DWMWA_TEXT_COLOR`.
pub const DWMWA_TEXT_COLOR: u32 = 36;

/// `DWMWA_SYSTEMBACKDROP_TYPE` (Windows 11 build 22621 and later).
pub const DWMWA_SYSTEMBACKDROP_TYPE: u32 = 38;

/// `DWMSBT_NONE`: no backdrop material.
pub const DWMSBT_NONE: u32 = 1;

/// `DWMSBT_MAINWINDOW`: Mica.
pub const DWMSBT_MAINWINDOW: u32 = 2;

/// `DWMSBT_TRANSIENTWINDOW`: Acrylic.
pub const DWMSBT_TRANSIENTWINDOW: u32 = 3;

/// `DWMSBT_TABBEDWINDOW`: Mica Alt.
pub const DWMSBT_TABBEDWINDOW: u32 = 4;

/// `DWMWCP_DEFAULT`.
pub const DWMWCP_DEFAULT: u32 = 0;

/// `DWMWCP_DONOTROUND`.
pub const DWMWCP_DONOTROUND: u32 = 1;

/// `DWMWCP_ROUND`.
pub const DWMWCP_ROUND: u32 = 2;

/// `DWMWCP_ROUNDSMALL`.
pub const DWMWCP_ROUNDSMALL: u32 = 3;

/// `flag` if `on`, no bits otherwise.
pub open spec fn bits_if(on: bool, flag: u32) -> u32 {
    if on { flag } else { 0 }
}

/// Sets the bits of `flag` in `style` when `enabled`, clears them otherwise,
/// and leaves every other bit as it was.
pub fn with_flag(style: u32, flag: u32, enabled: bool) -> (r: u32)
    ensures
        r & flag == bits_if(enabled, flag),
        r & !flag == style & !flag,
{
    if enabled {
        assert((style | flag) & flag == flag && (style | flag) & !flag == style & !flag)
            by (bit_vector);
        style | flag
    } else {
        assert((style & !flag) & flag == 0 && (style & !flag) & !flag == style & !flag)
            by (bit_vector);
        style & !flag
    }
}

/// Whether the window menu is wanted: it carries the close command, and
/// Windows shows the minimize and maximize buttons only with it.
pub open spec fn wants_system_menu(buttons: CaptionButtons) -> bool {
    buttons.close || buttons.minimize || buttons.maximize
}

/// `style` with the chrome bits replaced: the dialog frame from `caption`,
/// the border from `border`, the boxes from `minimize` and `maximize`, and
/// the window menu from `menu`; every other bit as it was.
pub open spec fn chrome_style(
    style: u32,
    caption: bool,
    border: bool,
    minimize: bool,
    maximize: bool,
    menu: bool,
) -> u32 {
    (style & !CHROME_STYLE_BITS) | bits_if(caption, WS_DLGFRAME) | bits_if(border, WS_BORDER)
        | bits_if(minimize, WS_MINIMIZEBOX) | bits_if(maximize, WS_MAXIMIZEBOX) | bits_if(
        menu,
        WS_SYSMENU,
    )
}

/// The style of a window whose style was `style` once `settings` are applied.
///
/// The border setting decides `WS_BORDER` and the caption setting the rest
/// of `WS_CAPTION` (`WS_DLGFRAME`), so a title bar shows only when both are
/// on. The minimize and maximize settings decide their boxes, the window
/// menu is kept while any button is wanted, and every other bit of `style`
/// stays as it was.
pub open spec fn patched_style(style: u32, settings: WindowsChromeSettings) -> u32 {
    chrome_style(
        style,
        settings.caption,
        settings.border,
        settings.buttons.minimize,
        settings.buttons.maximize,
        wants_system_menu(settings.buttons),
    )
}

/// Setting the five chrome flags one after another, with `with_flag`, gives
/// [`chrome_style`].
proof fn lemma_flag_steps_give_chrome_style(
    style: u32,
    s1: u32,
    s2: u32,
    s3: u32,
    s4: u32,
    s5: u32,
    caption: bool,
    border: bool,
    minimize: bool,
    maximize: bool,
    menu: bool,
)
    requires
        s1 & WS_CAPTION == bits_if(caption, WS_CAPTION),
        s1 & !WS_CAPTION == style & !WS_CAPTION,
        s2 & WS_BORDER == bits_if(border, WS_BORDER),
        s2 & !WS_BORDER == s1 & !WS_BORDER,
        s3 & WS_MINIMIZEBOX == bits_if(minimize, WS_MINIMIZEBOX),
        s3 & !WS_MINIMIZEBOX == s2 & !WS_MINIMIZEBOX,
        s4 & WS_MAXIMIZEBOX == bits_if(maximize, WS_MAXIMIZEBOX),
        s4 & !WS_MAXIMIZEBOX == s3 & !WS_MAXIMIZEBOX,
        s5 & WS_SYSMENU == bits_if(menu, WS_SYSMENU),
        s5 & !WS_SYSMENU == s4 & !WS_SYSMENU,
    ensures
        s5 == chrome_style(style, caption, border, minimize, maximize, menu),
{
    assert(s5 == chrome_style(style, caption, border, minimize, maximize, menu)) by (bit_vector)
        requires
            s1 & WS_CAPTION == bits_if(caption, WS_CAPTION),
            s1 & !WS_CAPTION == style & !WS_CAPTION,
            s2 & WS_BORDER == bits_if(border, WS_BORDER),
            s2 & !WS_BORDER == s1 & !WS_BORDER,
            s3 & WS_MINIMIZEBOX == bits_if(minimize, WS_MINIMIZEBOX),
            s3 & !WS_MINIMIZEBOX == s2 & !WS_MINIMIZEBOX,
            s4 & WS_MAXIMIZEBOX == bits_if(maximize, WS_MAXIMIZEBOX),
            s4 & !WS_MAXIMIZEBOX == s3 & !WS_MAXIMIZEBOX,
            s5 & WS_SYSMENU == bits_if(menu, WS_SYSMENU),
            s5 & !WS_SYSMENU == s4 & !WS_SYSMENU,
    ;
}

/// The window style that `settings` ask for, given the window's current
/// `style`.
pub fn patched_window_style(style: u32, settings: &WindowsChromeSettings) -> (r: u32)
    ensures
        r == patched_style(style, *settings),
{
    let s1 = with_flag(style, WS_CAPTION, settings.caption);
    let s2 = with_flag(s1, WS_BORDER, settings.border);
    let s3 = with_flag(s2, WS_MINIMIZEBOX, settings.buttons.minimize);
    let s4 = with_flag(s3, WS_MAXIMIZEBOX, settings.buttons.maximize);
    let wants_menu = settings.buttons.close || settings.buttons.minimize
        || settings.buttons.maximize;
    let s5 = with_flag(s4, WS_SYSMENU, wants_menu);
    proof {
        lemma_flag_steps_give_chrome_style(
            style,
            s1,
            s2,
            s3,
            s4,
            s5,
            settings.caption,
            settings.border,
            settings.buttons.minimize,
            settings.buttons.maximize,
            wants_menu,
        );
    }
    s5
}

/// The patched style says exactly what the settings ask: a title bar iff
/// both caption and border are on, a border iff border is on, each box iff
/// its button is wanted, the window menu iff any button is wanted, and every
/// bit that the settings do not decide is the window's own.
pub proof fn lemma_patched_style_reflects_settings(style: u32, settings: WindowsChromeSettings)
    ensures
        (patched_style(style, settings) & WS_CAPTION == WS_CAPTION) == (settings.caption
            && settings.border),
        (patched_style(style, settings) & WS_BORDER != 0) == settings.border,
        (patched_style(style, settings) & WS_DLGFRAME != 0) == settings.caption,
        (patched_style(style, settings) & WS_MINIMIZEBOX != 0) == settings.buttons.minimize,
        (patched_style(style, settings) & WS_MAXIMIZEBOX != 0) == settings.buttons.maximize,
        (patched_style(style, settings) & WS_SYSMENU != 0) == wants_system_menu(
            settings.buttons,
        ),
        patched_style(style, settings) & !CHROME_STYLE_BITS == style & !CHROME_STYLE_BITS,
{
    let caption = settings.caption;
    let border = settings.border;
    let minimize = settings.buttons.minimize;
    let maximize = settings.buttons.maximize;
    let menu = wants_system_menu(settings.buttons);
    let p = patched_style(style, settings);
    assert({
        &&& (p & WS_CAPTION == WS_CAPTION) == (caption && border)
        &&& (p & WS_BORDER != 0) == border
        &&& (p & WS_DLGFRAME != 0) == caption
        &&& (p & WS_MINIMIZEBOX != 0) == minimize
        &&& (p & WS_MAXIMIZEBOX != 0) == maximize
        &&& (p & WS_SYSMENU != 0) == menu
        &&& p & !CHROME_STYLE_BITS == style & !CHROME_STYLE_BITS
    }) by (bit_vector)
        requires
            p == chrome_style(style, caption, border, minimize, maximize, menu),
    ;
}

/// Patching is idempotent: applying the same settings to an already
/// patched window changes nothing.
pub proof fn lemma_patched_style_idempotent(style: u32, settings: WindowsChromeSettings)
    ensures
        patched_style(patched_style(style, settings), settings) == patched_style(style, settings),
{
    let caption = settings.caption;
    let border = settings.border;
    let minimize = settings.buttons.minimize;
    let maximize = settings.buttons.maximize;
    let menu = wants_system_menu(settings.buttons);
    let p = patched_style(style, settings);
    let q = patched_style(p, settings);
    assert(q == p) by (bit_vector)
        requires
            p == chrome_style(style, caption, border, minimize, maximize, menu),
            q == chrome_style(p, caption, border, minimize, maximize, menu),
    ;
}

/// The `COLORREF` value (`0x00BBGGRR`) of a color given by its 8-bit
/// red, green, blue and alpha channels; alpha plays no part.
pub open spec fn spec_colorref(rgba: [u8; 4]) -> u32 {
    (rgba@[0] + rgba@[1] * 0x100 + rgba@[2] * 0x1_0000) as u32
}

/// Packs the 8-bit channels of a color into a Win32 `COLORREF`: red in the
/// low byte, then green, then blue.
pub fn colorref(rgba: [u8; 4]) -> (r: u32)
    ensures
        r == spec_colorref(rgba),
        r as int == rgba@[0] + rgba@[1] * 0x100 + rgba@[2] * 0x1_0000,
{
    let red = rgba[0] as u32;
    let green = rgba[1] as u32;
    let blue = rgba[2] as u32;
    let r = red | (green << 8) | (blue << 16);
    assert(r == red + green * 0x100 + blue * 0x1_0000) by (bit_vector)
        requires
            red < 0x100,
            green < 0x100,
            blue < 0x100,
            r == red | (green << 8) | (blue << 16),
    ;
    r
}

/// The 8-bit channels of the three colors of a [`WindowsChromeSettings`],
/// each `None` when that color is unset. The channels are those of the
/// floating-point color rounded to 8 bits, which the caller computes.
#[derive(Debug, Clone, Copy, PartialEq, Eq, Hash)]
pub struct ColorChannels {
    pub border: Option<[u8; 4]>,
    pub title_background: Option<[u8; 4]>,
    pub title_text: Option<[u8; 4]>,
}

/// The `DWM_WINDOW_CORNER_PREFERENCE` value of a corner preference.
pub open spec fn spec_corner_preference_value(preference: WindowCornerPreference) -> u32 {
    match preference {
        WindowCornerPreference::Default => DWMWCP_DEFAULT,
        WindowCornerPreference::DoNotRound => DWMWCP_DONOTROUND,
        WindowCornerPreference::Round => DWMWCP_ROUND,
        WindowCornerPreference::RoundSmall => DWMWCP_ROUNDSMALL,
    }
}

/// The `DWM_WINDOW_CORNER_PREFERENCE` value that asks DWM for `preference`.
pub fn corner_preference_value(preference: WindowCornerPreference) -> (r: u32)
    ensures
        r == spec_corner_preference_value(preference),
{
    match preference {
        WindowCornerPreference::Default => DWMWCP_DEFAULT,
        WindowCornerPreference::DoNotRound => DWMWCP_DONOTROUND,
        WindowCornerPreference::Round => DWMWCP_ROUND,
        WindowCornerPreference::RoundSmall => DWMWCP_ROUNDSMALL,
    }
}

/// The `DWM_SYSTEMBACKDROP_TYPE` value of a backdrop material.
pub open spec fn spec_backdrop_value(backdrop: WindowsBackdrop) -> u32 {
    match backdrop {
        WindowsBackdrop::NoBackdrop => DWMSBT_NONE,
        WindowsBackdrop::Mica => DWMSBT_MAINWINDOW,
        WindowsBackdrop::Acrylic => DWMSBT_TRANSIENTWINDOW,
        WindowsBackdrop::MicaAlt => DWMSBT_TABBEDWINDOW,
    }
}

/// The `DWM_SYSTEMBACKDROP_TYPE` value that asks DWM for `backdrop`.
pub fn backdrop_value(backdrop: WindowsBackdrop) -> (r: u32)
    ensures
        r == spec_backdrop_value(backdrop),
{
    match backdrop {
        WindowsBackdrop::NoBackdrop => DWMSBT_NONE,
        WindowsBackdrop::Mica => DWMSBT_MAINWINDOW,
        WindowsBackdrop::Acrylic => DWMSBT_TRANSIENTWINDOW,
        WindowsBackdrop::MicaAlt => DWMSBT_TABBEDWINDOW,
    }
}

/// One `DwmSetWindowAttribute` call: a 4-byte `value` for `attribute`.
#[derive(Debug, Clone, Copy, PartialEq, Eq, Hash, Structural)]
pub struct DwmAttributeWrite {
    pub attribute: u32,
    pub value: u32,
}

/// The write of a color attribute, if the color is set.
pub open spec fn color_write(attribute: u32, color: Option<[u8; 4]>) -> Seq<DwmAttributeWrite> {
    match color {
        Some(c) => seq![DwmAttributeWrite { attribute, value: spec_colorref(c) }],
        None => seq![],
    }
}

/// The write of the corner preference, if one is set.
pub open spec fn corner_write(preference: Option<WindowCornerPreference>) -> Seq<
    DwmAttributeWrite,
> {
    match preference {
        Some(p) => seq![
            DwmAttributeWrite {
                attribute: DWMWA_WINDOW_CORNER_PREFERENCE,
                value: spec_corner_preference_value(p),
            },
        ],
        None => seq![],
    }
}

/// The write of the backdrop material, if one is set (unset leaves the
/// system's choice).
pub open spec fn backdrop_write(backdrop: Option<WindowsBackdrop>) -> Seq<DwmAttributeWrite> {
    match backdrop {
        Some(b) => seq![
            DwmAttributeWrite { attribute: DWMWA_SYSTEMBACKDROP_TYPE, value: spec_backdrop_value(b) },
        ],
        None => seq![],
    }
}

/// The DWM attribute writes that `settings` ask for, in the order in which
/// they are made: corner preference, border color, caption color, text
/// color, backdrop material, each only when set; the colors are written from
/// their 8-bit `channels`.
pub open spec fn spec_dwm_attribute_writes(
    settings: WindowsChromeSettings,
    channels: ColorChannels,
) -> Seq<DwmAttributeWrite> {
    corner_write(settings.corner_preference) + color_write(DWMWA_BORDER_COLOR, channels.border)
        + color_write(DWMWA_CAPTION_COLOR, channels.title_background) + color_write(
        DWMWA_TEXT_COLOR,
        channels.title_text,
    ) + backdrop_write(settings.backdrop)
}

fn push_color_write(writes: &mut Vec<DwmAttributeWrite>, attribute: u32, color: Option<[u8; 4]>)
    ensures
        final(writes)@ == old(writes)@ + color_write(attribute, color),
{
    if let Some(c) = color {
        writes.push(DwmAttributeWrite { attribute, value: colorref(c) });
    } else {
        assert(old(writes)@ + color_write(attribute, color) =~= old(writes)@);
    }
}

/// The DWM attribute writes that `settings` ask for, in order, with the
/// colors written from their 8-bit `channels`.
pub fn dwm_attribute_writes(settings: &WindowsChromeSettings, channels: &ColorChannels) -> (r: Vec<
    DwmAttributeWrite,
>)
    ensures
        r@ == spec_dwm_attribute_writes(*settings, *channels),
        writes_exactly(
            r@,
            DWMWA_WINDOW_CORNER_PREFERENCE,
            match settings.corner_preference {
                Some(p) => Some(spec_corner_preference_value(p)),
                None => None,
            },
        ),
        writes_exactly(
            r@,
            DWMWA_BORDER_COLOR,
            match channels.border {
                Some(c) => Some(spec_colorref(c)),
                None => None,
            },
        ),
        writes_exactly(
            r@,
            DWMWA_CAPTION_COLOR,
            match channels.title_background {
                Some(c) => Some(spec_colorref(c)),
                None => None,
            },
        ),
        writes_exactly(
            r@,
            DWMWA_TEXT_COLOR,
            match channels.title_text {
                Some(c) => Some(spec_colorref(c)),
                None => None,
            },
        ),
        writes_exactly(
            r@,
            DWMWA_SYSTEMBACKDROP_TYPE,
            match settings.backdrop {
                Some(b) => Some(spec_backdrop_value(b)),
                None => None,
            },
        ),
{
    proof {
        lemma_dwm_writes_follow_each_setting(*settings, *channels);
    }
    let mut writes: Vec<DwmAttributeWrite> = Vec::new();
    if let Some(preference) = settings.corner_preference {
        writes.push(
            DwmAttributeWrite {
                attribute: DWMWA_WINDOW_CORNER_PREFERENCE,
                value: corner_preference_value(preference),
            },
        );
    }
    assert(writes@ =~= corner_write(settings.corner_preference));
    push_color_write(&mut writes, DWMWA_BORDER_COLOR, channels.border);
    push_color_write(&mut writes, DWMWA_CAPTION_COLOR, channels.title_background);
    push_color_write(&mut writes, DWMWA_TEXT_COLOR, channels.title_text);
    let ghost before = writes@;
    if let Some(backdrop) = settings.backdrop {
        writes.push(
            DwmAttributeWrite {
                attribute: DWMWA_SYSTEMBACKDROP_TYPE,
                value: backdrop_value(backdrop),
            },
        );
    }
    assert(writes@ =~= before + backdrop_write(settings.backdrop));
    writes
}

/// Whether some write in `writes` is of `attribute`.
pub open spec fn writes_attribute(writes: Seq<DwmAttributeWrite>, attribute: u32) -> bool {
    exists|i: int| 0 <= i < writes.len() && #[trigger] writes[i].attribute == attribute
}

/// Whether every write of `attribute` in `writes` writes `value`.
pub open spec fn writes_value(writes: Seq<DwmAttributeWrite>, attribute: u32, value: u32) -> bool {
    forall|i: int| 0 <= i < writes.len() && #[trigger] writes[i].attribute == attribute
        ==> writes[i].value == value
}

/// `writes` sets `attribute` exactly when `value` is given, and then to it.
pub open spec fn writes_exactly(
    writes: Seq<DwmAttributeWrite>,
    attribute: u32,
    value: Option<u32>,
) -> bool {
    &&& writes_attribute(writes, attribute) == value is Some
    &&& value is Some ==> writes_value(writes, attribute, value->0)
}

proof fn lemma_writes_concat(x: Seq<DwmAttributeWrite>, y: Seq<DwmAttributeWrite>, attribute: u32, value: u32)
    ensures
        writes_attribute(x + y, attribute) == (writes_attribute(x, attribute) || writes_attribute(
            y,
            attribute,
        )),
        writes_value(x + y, attribute, value) == (writes_value(x, attribute, value)
            && writes_value(y, attribute, value)),
{
    let s = x + y;
    if writes_attribute(s, attribute) {
        let i = choose|i: int| 0 <= i < s.len() && #[trigger] s[i].attribute == attribute;
        if i < x.len() {
            assert(x[i] == s[i]);
        } else {
            assert(y[i - x.len()] == s[i]);
        }
    }
    if writes_attribute(x, attribute) {
        let i = choose|i: int| 0 <= i < x.len() && #[trigger] x[i].attribute == attribute;
        assert(s[i] == x[i]);
    }
    if writes_attribute(y, attribute) {
        let i = choose|i: int| 0 <= i < y.len() && #[trigger] y[i].attribute == attribute;
        assert(s[i + x.len()] == y[i]);
    }
    if writes_value(x, attribute, value) && writes_value(y, attribute, value) {
        assert forall|i: int| 0 <= i < s.len() && #[trigger] s[i].attribute == attribute implies s[i].value
            == value by {
            if i < x.len() {
                assert(x[i] == s[i]);
            } else {
                assert(y[i - x.len()] == s[i]);
            }
        }
    }
    if writes_value(s, attribute, value) {
        assert forall|i: int| 0 <= i < x.len() && #[trigger] x[i].attribute == attribute implies x[i].value
            == value by {
            assert(s[i] == x[i]);
        }
        assert forall|i: int| 0 <= i < y.len() && #[trigger] y[i].attribute == attribute implies y[i].value
            == value by {
            assert(s[i + x.len()] == y[i]);
        }
    }
}

proof fn lemma_single_write(w: Option<DwmAttributeWrite>, attribute: u32, value: u32)
    ensures
        writes_attribute(
            match w {
                Some(x) => seq![x],
                None => seq![],
            },
            attribute,
        ) == (w is Some && w->0.attribute == attribute),
        writes_value(
            match w {
                Some(x) => seq![x],
                None => seq![],
            },
            attribute,
            value,
        ) == (w is Some && w->0.attribute == attribute ==> w->0.value == value),
{
    let s: Seq<DwmAttributeWrite> = match w {
        Some(x) => seq![x],
        None => seq![],
    };
    if w is Some {
        assert(s[0] == w->0);
    }
}

proof fn lemma_five_parts(
    a: Option<DwmAttributeWrite>,
    b: Option<DwmAttributeWrite>,
    c: Option<DwmAttributeWrite>,
    d: Option<DwmAttributeWrite>,
    e: Option<DwmAttributeWrite>,
    attribute: u32,
    value: u32,
)
    ensures
        ({
            let part = |o: Option<DwmAttributeWrite>|
                match o {
                    Some(x) => seq![x],
                    None => Seq::<DwmAttributeWrite>::empty(),
                };
            let s = part(a) + part(b) + part(c) + part(d) + part(e);
            let hits = |o: Option<DwmAttributeWrite>| o is Some && o->0.attribute == attribute;
            let good = |o: Option<DwmAttributeWrite>|
                (o is Some && o->0.attribute == attribute ==> o->0.value == value);
            &&& writes_attribute(s, attribute) == (hits(a) || hits(b) || hits(c) || hits(d) || hits(
                e,
            ))
            &&& writes_value(s, attribute, value) == (good(a) && good(b) && good(c) && good(d)
                && good(e))
        }),
{
    let part = |o: Option<DwmAttributeWrite>|
        match o {
            Some(x) => seq![x],
            None => Seq::<DwmAttributeWrite>::empty(),
        };
    lemma_single_write(a, attribute, value);
    lemma_single_write(b, attribute, value);
    lemma_single_write(c, attribute, value);
    lemma_single_write(d, attribute, value);
    lemma_single_write(e, attribute, value);
    lemma_writes_concat(part(a), part(b), attribute, value);
    lemma_writes_concat(part(a) + part(b), part(c), attribute, value);
    lemma_writes_concat(part(a) + part(b) + part(c), part(d), attribute, value);
    lemma_writes_concat(part(a) + part(b) + part(c) + part(d), part(e), attribute, value);
}

/// Each DWM attribute is written exactly when its own setting is set, and
/// then with that setting's value, whatever the other settings are: the
/// corner preference from its preference, each color from its own 8-bit
/// channels, the backdrop from its material.
pub proof fn lemma_dwm_writes_follow_each_setting(
    settings: WindowsChromeSettings,
    channels: ColorChannels,
)
    ensures
        writes_exactly(
            spec_dwm_attribute_writes(settings, channels),
            DWMWA_WINDOW_CORNER_PREFERENCE,
            match settings.corner_preference {
                Some(p) => Some(spec_corner_preference_value(p)),
                None => None,
            },
        ),
        writes_exactly(
            spec_dwm_attribute_writes(settings, channels),
            DWMWA_BORDER_COLOR,
            match channels.border {
                Some(c) => Some(spec_colorref(c)),
                None => None,
            },
        ),
        writes_exactly(
            spec_dwm_attribute_writes(settings, channels),
            DWMWA_CAPTION_COLOR,
            match channels.title_background {
                Some(c) => Some(spec_colorref(c)),
                None => None,
            },
        ),
        writes_exactly(
            spec_dwm_attribute_writes(settings, channels),
            DWMWA_TEXT_COLOR,
            match channels.title_text {
                Some(c) => Some(spec_colorref(c)),
                None => None,
            },
        ),
        writes_exactly(
            spec_dwm_attribute_writes(settings, channels),
            DWMWA_SYSTEMBACKDROP_TYPE,
            match settings.backdrop {
                Some(b) => Some(spec_backdrop_value(b)),
                None => None,
            },
        ),
{
    let a = match settings.corner_preference {
        Some(p) => Some(
            DwmAttributeWrite {
                attribute: DWMWA_WINDOW_CORNER_PREFERENCE,
                value: spec_corner_preference_value(p),
            },
        ),
        None => None,
    };
    let color = |attribute: u32, o: Option<[u8; 4]>|
        match o {
            Some(c) => Some(DwmAttributeWrite { attribute, value: spec_colorref(c) }),
            None => None,
        };
    let b = color(DWMWA_BORDER_COLOR, channels.border);
    let c = color(DWMWA_CAPTION_COLOR, channels.title_background);
    let d = color(DWMWA_TEXT_COLOR, channels.title_text);
    let e = match settings.backdrop {
        Some(m) => Some(
            DwmAttributeWrite { attribute: DWMWA_SYSTEMBACKDROP_TYPE, value: spec_backdrop_value(m) },
        ),
        None => None,
    };
    let part = |o: Option<DwmAttributeWrite>|
        match o {
            Some(x) => seq![x],
            None => Seq::<DwmAttributeWrite>::empty(),
        };
    assert(spec_dwm_attribute_writes(settings, channels) == part(a) + part(b) + part(c) + part(d)
        + part(e));
    let v_corner = match settings.corner_preference {
        Some(p) => spec_corner_preference_value(p),
        None => 0,
    };
    let v_border = match channels.border {
        Some(x) => spec_colorref(x),
        None => 0,
    };
    let v_caption = match channels.title_background {
        Some(x) => spec_colorref(x),
        None => 0,
    };
    let v_text = match channels.title_text {
        Some(x) => spec_colorref(x),
        None => 0,
    };
    let v_backdrop = match settings.backdrop {
        Some(m) => spec_backdrop_value(m),
        None => 0,
    };
    lemma_five_parts(a, b, c, d, e, DWMWA_WINDOW_CORNER_PREFERENCE, v_corner);
    lemma_five_parts(a, b, c, d, e, DWMWA_BORDER_COLOR, v_border);
    lemma_five_parts(a, b, c, d, e, DWMWA_CAPTION_COLOR, v_caption);
    lemma_five_parts(a, b, c, d, e, DWMWA_TEXT_COLOR, v_text);
    lemma_five_parts(a, b, c, d, e, DWMWA_SYSTEMBACKDROP_TYPE, v_backdrop);
}

/// What a `SetWindowLongPtrW(GWL_STYLE, ..)` call came to: it failed when it
/// returned 0 and `GetLastError` (cleared before the call) is no longer 0.
pub fn style_write_outcome(previous: isize, last_error: u32) -> (r: Result<(), Error>)
    ensures
        previous == 0 && last_error != 0 ==> r == Err::<(), Error>(
            Error::Windows("SetWindowLongPtrW"),
        ),
        !(previous == 0 && last_error != 0) ==> r == Ok::<(), Error>(()),
{
    if previous == 0 && last_error != 0 {
        Err(Error::Windows("SetWindowLongPtrW"))
    } else {
        Ok(())
    }
}

/// What a `SetWindowPos` call that refreshes the frame came to: it failed
/// when it returned 0.
pub fn frame_refresh_outcome(ok: i32) -> (r: Result<(), Error>)
    ensures
        ok == 0 ==> r == Err::<(), Error>(Error::Windows("SetWindowPos")),
        ok != 0 ==> r == Ok::<(), Error>(()),
{
    if ok == 0 {
        Err(Error::Windows("SetWindowPos"))
    } else {
        Ok(())
    }
}

/// What a `DwmSetWindowAttribute` call came to: any `HRESULT` other than
/// `S_OK` (0) is a failure.
pub fn dwm_write_outcome(result: i32) -> (r: Result<(), Error>)
    ensures
        result != 0 ==> r == Err::<(), Error>(Error::Windows("DwmSetWindowAttribute")),
        result == 0 ==> r == Ok::<(), Error>(()),
{
    if result != 0 {
        Err(Error::Windows("DwmSetWindowAttribute"))
    } else {
        Ok(())
    }
}

} // verus!
