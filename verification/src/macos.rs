//! What an AppKit window's style mask, titlebar and traffic lights become
//! under a set of [`MacosChromeSettings`].
//!
//! Positions and sizes are left to the caller, which works in floating
//! point; here the lengths are carried as the bit patterns the settings hold
//! them in.

use vstd::prelude::*;

use crate::settings::{MacosChromeSettings, MacosTitlebarSeparatorStyle};

verus! {

/// `NSWindowStyleMaskTitled`.
pub const NS_WINDOW_STYLE_TITLED: usize = 1;

/// `NSWindowStyleMaskClosable`.
pub const NS_WINDOW_STYLE_CLOSABLE: usize = 2;

/// `NSWindowStyleMaskFullSizeContentView`.
pub const NS_WINDOW_STYLE_FULL_SIZE_CONTENT_VIEW: usize = 0x8000;

/// Whether the titlebar is drawn transparent: when it is hidden, or asked to
/// be transparent.
pub open spec fn spec_shows_transparent_titlebar(chrome: MacosChromeSettings) -> bool {
    !chrome.titlebar || chrome.titlebar_transparent
}

/// Whether the content view extends under the titlebar: when the titlebar
/// is hidden, asked for, or when the titlebar is transparent.
pub open spec fn spec_uses_fullsize_content_view(chrome: MacosChromeSettings) -> bool {
    !chrome.titlebar || chrome.fullsize_content_view || chrome.titlebar_transparent
}

/// Whether the window title is shown: only on a visible titlebar.
pub open spec fn spec_title_visible(chrome: MacosChromeSettings) -> bool {
    chrome.titlebar && chrome.title
}

/// The separator style: the one asked for, else none under a hidden or
/// transparent titlebar, else AppKit's automatic choice.
pub open spec fn spec_titlebar_separator_style(chrome: MacosChromeSettings) -> MacosTitlebarSeparatorStyle {
    match chrome.titlebar_separator_style {
        Some(style) => style,
        None => if chrome.titlebar_transparent || !chrome.titlebar {
            MacosTitlebarSeparatorStyle::NoSeparator
        } else {
            MacosTitlebarSeparatorStyle::Automatic
        },
    }
}

/// The style mask of a window whose mask was `mask`: always titled and
/// closable (a live window is kept titled and its titlebar hidden visually
/// instead), with a full-size content view exactly when
/// [`spec_uses_fullsize_content_view`] says so, every other bit as it was.
pub open spec fn spec_window_style_mask(mask: usize, chrome: MacosChromeSettings) -> usize {
    if spec_uses_fullsize_content_view(chrome) {
        mask | NS_WINDOW_STYLE_TITLED | NS_WINDOW_STYLE_CLOSABLE
            | NS_WINDOW_STYLE_FULL_SIZE_CONTENT_VIEW
    } else {
        (mask | NS_WINDOW_STYLE_TITLED | NS_WINDOW_STYLE_CLOSABLE)
            & !NS_WINDOW_STYLE_FULL_SIZE_CONTENT_VIEW
    }
}

/// The height (as `f64` bits) of the titlebar accessory to install, if any:
/// one is installed only when a height is set and the titlebar or the
/// traffic lights are shown.
pub open spec fn spec_titlebar_accessory_height(chrome: MacosChromeSettings) -> Option<u64> {
    if chrome.titlebar || chrome.traffic_lights {
        chrome.titlebar_height
    } else {
        None
    }
}

/// Whether the titlebar is drawn transparent.
pub fn shows_transparent_titlebar(chrome: &MacosChromeSettings) -> (r: bool)
    ensures
        r == spec_shows_transparent_titlebar(*chrome),
{
    !chrome.titlebar || chrome.titlebar_transparent
}

/// Whether the content view extends under the titlebar.
pub fn uses_fullsize_content_view(chrome: &MacosChromeSettings) -> (r: bool)
    ensures
        r == spec_uses_fullsize_content_view(*chrome),
        chrome.fullsize_content_view ==> r,
        chrome.titlebar_transparent ==> r,
        !chrome.titlebar ==> r,
        chrome.titlebar && !chrome.fullsize_content_view && !chrome.titlebar_transparent ==> !r,
{
    !chrome.titlebar || chrome.fullsize_content_view || chrome.titlebar_transparent
}

/// Whether the window title is shown.
pub fn title_visible(chrome: &MacosChromeSettings) -> (r: bool)
    ensures
        r == spec_title_visible(*chrome),
{
    chrome.titlebar && chrome.title
}

/// The titlebar separator style to set.
pub fn titlebar_separator_style(chrome: &MacosChromeSettings) -> (r: MacosTitlebarSeparatorStyle)
    ensures
        r == spec_titlebar_separator_style(*chrome),
{
    match chrome.titlebar_separator_style {
        Some(style) => style,
        None => {
            if chrome.titlebar_transparent || !chrome.titlebar {
                MacosTitlebarSeparatorStyle::NoSeparator
            } else {
                MacosTitlebarSeparatorStyle::Automatic
            }
        },
    }
}

/// The style mask to set on a window whose style mask is `mask`.
pub fn window_style_mask(mask: usize, chrome: &MacosChromeSettings) -> (r: usize)
    ensures
        r == spec_window_style_mask(mask, *chrome),
{
    let titled = mask | NS_WINDOW_STYLE_TITLED | NS_WINDOW_STYLE_CLOSABLE;
    if uses_fullsize_content_view(chrome) {
        titled | NS_WINDOW_STYLE_FULL_SIZE_CONTENT_VIEW
    } else {
        titled & !NS_WINDOW_STYLE_FULL_SIZE_CONTENT_VIEW
    }
}

/// The height (as `f64` bits) of the titlebar accessory to install, if any.
pub fn titlebar_accessory_height(chrome: &MacosChromeSettings) -> (r: Option<u64>)
    ensures
        r == spec_titlebar_accessory_height(*chrome),
        chrome.titlebar ==> r == chrome.titlebar_height,
        chrome.traffic_lights ==> r == chrome.titlebar_height,
        !chrome.titlebar && !chrome.traffic_lights ==> r is None,
{
    if chrome.titlebar || chrome.traffic_lights {
        chrome.titlebar_height
    } else {
        None
    }
}

/// What to do with each traffic-light button.
#[derive(Debug, Clone, Copy, PartialEq, Eq, Hash, Structural)]
pub struct TrafficLightPlan {
    /// The buttons are hidden.
    pub hidden: bool,
    /// The horizontal offset from the button's own position, as `f64` bits
    /// (0 is no offset).
    pub offset_x: u64,
    /// The vertical offset, likewise.
    pub offset_y: u64,
    /// The buttons are kept at their offset position when AppKit lays the
    /// titlebar out again.
    pub pinned: bool,
}

/// The traffic-light plan: shown buttons take the offsets that are set
/// (unset ones count as no offset, whose bit pattern is 0) and are pinned
/// when any offset is set; hidden buttons take no offset and no pin.
pub open spec fn spec_traffic_light_plan(chrome: MacosChromeSettings) -> TrafficLightPlan {
    if chrome.traffic_lights {
        TrafficLightPlan {
            hidden: false,
            offset_x: match chrome.traffic_light_offset_x {
                Some(x) => x,
                None => 0,
            },
            offset_y: match chrome.traffic_light_offset_y {
                Some(y) => y,
                None => 0,
            },
            pinned: chrome.traffic_light_offset_x is Some || chrome.traffic_light_offset_y is Some,
        }
    } else {
        TrafficLightPlan { hidden: true, offset_x: 0, offset_y: 0, pinned: false }
    }
}

/// The traffic-light plan that the settings ask for.
pub fn traffic_light_plan(chrome: &MacosChromeSettings) -> (r: TrafficLightPlan)
    ensures
        r == spec_traffic_light_plan(*chrome),
        r.hidden == !chrome.traffic_lights,
        chrome.traffic_lights ==> (r.pinned <==> (chrome.traffic_light_offset_x is Some
            || chrome.traffic_light_offset_y is Some)),
        !chrome.traffic_lights ==> !r.pinned && r.offset_x == 0 && r.offset_y == 0,
        chrome.traffic_lights && chrome.traffic_light_offset_x is Some ==> r.offset_x
            == chrome.traffic_light_offset_x->0,
        chrome.traffic_lights && chrome.traffic_light_offset_y is Some ==> r.offset_y
            == chrome.traffic_light_offset_y->0,
        chrome.traffic_light_offset_x is None ==> r.offset_x == 0,
        chrome.traffic_light_offset_y is None ==> r.offset_y == 0,
{
    let (offset_x, offset_y) = if chrome.traffic_lights {
        (chrome.traffic_light_offset_x, chrome.traffic_light_offset_y)
    } else {
        (None, None)
    };
    let pinned = offset_x.is_some() || offset_y.is_some();
    TrafficLightPlan {
        hidden: !chrome.traffic_lights,
        offset_x: match offset_x {
            Some(x) => x,
            None => 0,
        },
        offset_y: match offset_y {
            Some(y) => y,
            None => 0,
        },
        pinned,
    }
}

/// What to do with the observer that keeps a traffic-light button in place.
#[derive(Debug, Clone, Copy, PartialEq, Eq, Hash, Structural)]
pub enum ObserverAction {
    /// Give the button's existing observer its new expected position.
    Retarget,
    /// Create an observer for the button and register it.
    Register,
    /// Unregister the button's observer and forget it.
    Unregister,
    /// Nothing to do.
    Keep,
}

/// The observer action for a button, given whether it is to be pinned and
/// whether an observer is already registered for it.
pub open spec fn spec_observer_action(pinned: bool, registered: bool) -> ObserverAction {
    if pinned {
        if registered {
            ObserverAction::Retarget
        } else {
            ObserverAction::Register
        }
    } else if registered {
        ObserverAction::Unregister
    } else {
        ObserverAction::Keep
    }
}

/// Whether a button has an observer registered once `action` is carried
/// out, given whether it had one before.
pub open spec fn registered_after(action: ObserverAction, registered: bool) -> bool {
    match action {
        ObserverAction::Retarget => true,
        ObserverAction::Register => true,
        ObserverAction::Unregister => false,
        ObserverAction::Keep => registered,
    }
}

/// After its action, a button has an observer exactly when it is pinned;
/// an observer is only registered where there was none, and only
/// retargeted or unregistered where there was one.
pub proof fn lemma_observer_registered_iff_pinned(pinned: bool, registered: bool)
    ensures
        registered_after(spec_observer_action(pinned, registered), registered) == pinned,
        spec_observer_action(pinned, registered) == ObserverAction::Register ==> !registered,
        spec_observer_action(pinned, registered) == ObserverAction::Retarget ==> registered,
        spec_observer_action(pinned, registered) == ObserverAction::Unregister ==> registered,
{
}

/// The observer action for a button.
pub fn observer_action(pinned: bool, registered: bool) -> (r: ObserverAction)
    ensures
        r == spec_observer_action(pinned, registered),
{
    if pinned {
        if registered {
            ObserverAction::Retarget
        } else {
            ObserverAction::Register
        }
    } else if registered {
        ObserverAction::Unregister
    } else {
        ObserverAction::Keep
    }
}


/// The content view extends under the titlebar whenever any of the three
/// reasons for it holds (hidden titlebar, full-size content asked for,
/// transparent titlebar), and only then.
pub proof fn lemma_fullsize_content_view_reasons(chrome: MacosChromeSettings)
    ensures
        chrome.fullsize_content_view ==> spec_uses_fullsize_content_view(chrome),
        chrome.titlebar_transparent ==> spec_uses_fullsize_content_view(chrome),
        !chrome.titlebar ==> spec_uses_fullsize_content_view(chrome),
        chrome.titlebar && !chrome.fullsize_content_view && !chrome.titlebar_transparent
            ==> !spec_uses_fullsize_content_view(chrome),
{
}

/// The style mask gets a full-size content view whenever full-size content
/// or a transparent titlebar is asked for, or the titlebar is hidden.
pub proof fn lemma_style_mask_full_size_when_asked(mask: usize, chrome: MacosChromeSettings)
    ensures
        chrome.fullsize_content_view || chrome.titlebar_transparent || !chrome.titlebar
            ==> spec_window_style_mask(mask, chrome) & NS_WINDOW_STYLE_FULL_SIZE_CONTENT_VIEW
            != 0,
        chrome.titlebar && !chrome.fullsize_content_view && !chrome.titlebar_transparent
            ==> spec_window_style_mask(mask, chrome) & NS_WINDOW_STYLE_FULL_SIZE_CONTENT_VIEW
            == 0,
{
    lemma_fullsize_content_view_reasons(chrome);
    lemma_window_style_mask(mask, chrome);
}

/// The titlebar accessory takes the requested height whenever the titlebar
/// or the traffic lights are shown, and there is none when both are hidden.
pub proof fn lemma_titlebar_accessory_height(chrome: MacosChromeSettings)
    ensures
        chrome.titlebar ==> spec_titlebar_accessory_height(chrome) == chrome.titlebar_height,
        chrome.traffic_lights ==> spec_titlebar_accessory_height(chrome)
            == chrome.titlebar_height,
        !chrome.titlebar && !chrome.traffic_lights ==> spec_titlebar_accessory_height(chrome)
            is None,
{
}

/// Shown traffic lights are pinned exactly when some offset is set, and
/// take each set offset (an unset one is no offset, bit pattern 0); hidden
/// ones are neither moved nor pinned.
pub proof fn lemma_traffic_light_plan(chrome: MacosChromeSettings)
    ensures
        spec_traffic_light_plan(chrome).hidden == !chrome.traffic_lights,
        chrome.traffic_lights ==> (spec_traffic_light_plan(chrome).pinned <==> (
        chrome.traffic_light_offset_x is Some || chrome.traffic_light_offset_y is Some)),
        chrome.traffic_lights && chrome.traffic_light_offset_x is Some
            ==> spec_traffic_light_plan(chrome).offset_x == chrome.traffic_light_offset_x->0,
        chrome.traffic_lights && chrome.traffic_light_offset_y is Some
            ==> spec_traffic_light_plan(chrome).offset_y == chrome.traffic_light_offset_y->0,
        chrome.traffic_light_offset_x is None ==> spec_traffic_light_plan(chrome).offset_x == 0,
        chrome.traffic_light_offset_y is None ==> spec_traffic_light_plan(chrome).offset_y == 0,
        !chrome.traffic_lights ==> !spec_traffic_light_plan(chrome).pinned
            && spec_traffic_light_plan(chrome).offset_x == 0 && spec_traffic_light_plan(
            chrome,
        ).offset_y == 0,
{
}

/// A hidden titlebar is drawn transparent over a full-size content view,
/// shows no title, and has no separator unless one is asked for.
pub proof fn lemma_hidden_titlebar(chrome: MacosChromeSettings)
    requires
        !chrome.titlebar,
    ensures
        spec_shows_transparent_titlebar(chrome),
        spec_uses_fullsize_content_view(chrome),
        !spec_title_visible(chrome),
        chrome.titlebar_separator_style is None ==> spec_titlebar_separator_style(chrome)
            == MacosTitlebarSeparatorStyle::NoSeparator,
{
}

/// The patched style mask is always titled and closable, has a full-size
/// content view exactly when asked for, keeps every other bit of the
/// window's mask, and patching it again changes nothing.
pub proof fn lemma_window_style_mask(mask: usize, chrome: MacosChromeSettings)
    ensures
        spec_window_style_mask(mask, chrome) & NS_WINDOW_STYLE_TITLED != 0,
        spec_window_style_mask(mask, chrome) & NS_WINDOW_STYLE_CLOSABLE != 0,
        (spec_window_style_mask(mask, chrome) & NS_WINDOW_STYLE_FULL_SIZE_CONTENT_VIEW != 0)
            == spec_uses_fullsize_content_view(chrome),
        spec_window_style_mask(mask, chrome) & !0x8003usize == mask & !0x8003usize,
        spec_window_style_mask(spec_window_style_mask(mask, chrome), chrome)
            == spec_window_style_mask(mask, chrome),
{
    let full = spec_uses_fullsize_content_view(chrome);
    let r = spec_window_style_mask(mask, chrome);
    let q = spec_window_style_mask(r, chrome);
    assert({
        &&& r & 1 != 0
        &&& r & 2 != 0
        &&& (r & 0x8000 != 0) == full
        &&& r & !0x8003usize == mask & !0x8003usize
        &&& q == r
    }) by (bit_vector)
        requires
            r == (if full {
                mask | 1usize | 2usize | 0x8000usize
            } else {
                (mask | 1usize | 2usize) & !0x8000usize
            }),
            q == (if full {
                r | 1usize | 2usize | 0x8000usize
            } else {
                (r | 1usize | 2usize) & !0x8000usize
            }),
    ;
}

} // verus!
