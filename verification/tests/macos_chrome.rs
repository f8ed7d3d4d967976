use iced_window_chrome::macos::{
    observer_action, shows_transparent_titlebar, title_visible, titlebar_accessory_height,
    titlebar_separator_style, traffic_light_plan, uses_fullsize_content_view, window_style_mask,
    ObserverAction, TrafficLightPlan, NS_WINDOW_STYLE_CLOSABLE,
    NS_WINDOW_STYLE_FULL_SIZE_CONTENT_VIEW, NS_WINDOW_STYLE_TITLED,
};
use iced_window_chrome::{MacosChromeSettings, MacosTitlebarSeparatorStyle};

const RESIZABLE: usize = 1 << 3;
const MINIATURIZABLE: usize = 1 << 2;

fn hidden_titlebar() -> MacosChromeSettings {
    MacosChromeSettings { titlebar: false, ..MacosChromeSettings::default() }
}

#[test]
fn default_titlebar_is_plain() {
    let chrome = MacosChromeSettings::default();
    assert!(!shows_transparent_titlebar(&chrome));
    assert!(!uses_fullsize_content_view(&chrome));
    assert!(title_visible(&chrome));
    assert_eq!(titlebar_separator_style(&chrome), MacosTitlebarSeparatorStyle::Automatic);
    assert_eq!(titlebar_accessory_height(&chrome), None);
}

#[test]
fn hidden_titlebar_is_transparent_full_size_and_untitled() {
    let chrome = hidden_titlebar();
    assert!(shows_transparent_titlebar(&chrome));
    assert!(uses_fullsize_content_view(&chrome));
    assert!(!title_visible(&chrome));
    assert_eq!(titlebar_separator_style(&chrome), MacosTitlebarSeparatorStyle::NoSeparator);
}

#[test]
fn transparent_titlebar_extends_content() {
    let chrome = MacosChromeSettings { titlebar_transparent: true, ..MacosChromeSettings::default() };
    assert!(shows_transparent_titlebar(&chrome));
    assert!(uses_fullsize_content_view(&chrome));
    assert!(title_visible(&chrome));
    assert_eq!(titlebar_separator_style(&chrome), MacosTitlebarSeparatorStyle::NoSeparator);
}

#[test]
fn fullsize_content_alone_keeps_an_opaque_titlebar() {
    let chrome =
        MacosChromeSettings { fullsize_content_view: true, ..MacosChromeSettings::default() };
    assert!(!shows_transparent_titlebar(&chrome));
    assert!(uses_fullsize_content_view(&chrome));
}

#[test]
fn explicit_separator_style_wins() {
    for style in [
        MacosTitlebarSeparatorStyle::Automatic,
        MacosTitlebarSeparatorStyle::NoSeparator,
        MacosTitlebarSeparatorStyle::Line,
        MacosTitlebarSeparatorStyle::Shadow,
    ] {
        let chrome =
            MacosChromeSettings { titlebar_separator_style: Some(style), ..hidden_titlebar() };
        assert_eq!(titlebar_separator_style(&chrome), style);
    }
}

#[test]
fn hidden_title_on_visible_titlebar() {
    let chrome = MacosChromeSettings { title: false, ..MacosChromeSettings::default() };
    assert!(!title_visible(&chrome));
}

#[test]
fn style_mask_stays_titled_and_closable() {
    let borderless = 0usize;
    let mask = window_style_mask(borderless, &MacosChromeSettings::default());
    assert_eq!(mask, NS_WINDOW_STYLE_TITLED | NS_WINDOW_STYLE_CLOSABLE);

    let chrome = hidden_titlebar();
    let mask = window_style_mask(RESIZABLE | MINIATURIZABLE, &chrome);
    assert_eq!(
        mask,
        RESIZABLE | MINIATURIZABLE | NS_WINDOW_STYLE_TITLED | NS_WINDOW_STYLE_CLOSABLE
            | NS_WINDOW_STYLE_FULL_SIZE_CONTENT_VIEW
    );
    assert_eq!(window_style_mask(mask, &chrome), mask);

    let removed = window_style_mask(mask, &MacosChromeSettings::default());
    assert_eq!(removed & NS_WINDOW_STYLE_FULL_SIZE_CONTENT_VIEW, 0);
    assert_eq!(removed & RESIZABLE, RESIZABLE);
}

#[test]
fn accessory_needs_a_height_and_something_to_hold() {
    let height = Some(52.0f64.to_bits());
    let chrome = MacosChromeSettings { titlebar_height: height, ..MacosChromeSettings::default() };
    assert_eq!(titlebar_accessory_height(&chrome), height);

    let no_lights = MacosChromeSettings { traffic_lights: false, ..hidden_titlebar() };
    assert_eq!(titlebar_accessory_height(&no_lights), None);
    let with_height = MacosChromeSettings { titlebar_height: height, ..no_lights };
    assert_eq!(titlebar_accessory_height(&with_height), None);

    let lights_only = MacosChromeSettings { titlebar_height: height, ..hidden_titlebar() };
    assert_eq!(titlebar_accessory_height(&lights_only), height);
}

#[test]
fn traffic_lights_take_their_offsets() {
    let x = 12.5f64.to_bits();
    let chrome = MacosChromeSettings {
        traffic_light_offset_x: Some(x),
        ..MacosChromeSettings::default()
    };
    assert_eq!(
        traffic_light_plan(&chrome),
        TrafficLightPlan { hidden: false, offset_x: x, offset_y: 0.0f64.to_bits(), pinned: true }
    );
    assert_eq!(
        traffic_light_plan(&MacosChromeSettings::default()),
        TrafficLightPlan { hidden: false, offset_x: 0, offset_y: 0, pinned: false }
    );
}

#[test]
fn hidden_traffic_lights_are_not_moved() {
    let chrome = MacosChromeSettings {
        traffic_lights: false,
        traffic_light_offset_x: Some(4.0f64.to_bits()),
        traffic_light_offset_y: Some((-3.0f64).to_bits()),
        ..MacosChromeSettings::default()
    };
    assert_eq!(
        traffic_light_plan(&chrome),
        TrafficLightPlan { hidden: true, offset_x: 0, offset_y: 0, pinned: false }
    );
}

#[test]
fn after_its_action_a_button_is_observed_iff_pinned() {
    for pinned in [false, true] {
        for registered in [false, true] {
            let mut observed = registered;
            match observer_action(pinned, registered) {
                ObserverAction::Retarget => assert!(observed),
                ObserverAction::Register => {
                    assert!(!observed);
                    observed = true;
                }
                ObserverAction::Unregister => {
                    assert!(observed);
                    observed = false;
                }
                ObserverAction::Keep => {}
            }
            assert_eq!(observed, pinned);
        }
    }
}

#[test]
fn observer_actions() {
    assert_eq!(observer_action(true, true), ObserverAction::Retarget);
    assert_eq!(observer_action(true, false), ObserverAction::Register);
    assert_eq!(observer_action(false, true), ObserverAction::Unregister);
    assert_eq!(observer_action(false, false), ObserverAction::Keep);
}
