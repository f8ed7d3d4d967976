use iced_window_chrome::linux::{
    apply_wayland, hints_from_reply, patched_motif_hints, MotifHints, MWM_FUNC_ALL,
    MWM_FUNC_CLOSE, MWM_FUNC_MAXIMIZE, MWM_FUNC_MINIMIZE, MWM_HINTS_DECORATIONS,
    MWM_HINTS_FUNCTIONS,
};
use iced_window_chrome::{CaptionButtons, ChromeSettings, LinuxChromeSettings};

const HINTS_ATOM: u32 = 321;

fn offered(hints: &MotifHints, func: u32) -> bool {
    if hints.flags & MWM_HINTS_FUNCTIONS == 0 {
        true
    } else if hints.functions & MWM_FUNC_ALL != 0 {
        hints.functions & func == 0
    } else {
        hints.functions & func != 0
    }
}

fn linux(decorations: bool, close: bool, minimize: bool, maximize: bool) -> LinuxChromeSettings {
    LinuxChromeSettings { decorations, buttons: CaptionButtons { close, minimize, maximize } }
}

#[test]
fn new_hints_are_all_zero() {
    assert_eq!(MotifHints::new().as_property(), [0, 0, 0, 0, 0]);
}

#[test]
fn set_decorations_marks_the_word_honoured() {
    let mut hints = MotifHints::new();
    hints.set_decorations(false);
    assert_eq!(hints.flags, MWM_HINTS_DECORATIONS);
    assert_eq!(hints.decorations, 0);
    hints.set_decorations(true);
    assert_eq!(hints.decorations, 1);
}

#[test]
fn removing_from_unhonoured_functions_starts_from_all() {
    let mut hints = MotifHints::new();
    hints.remove_func(MWM_FUNC_CLOSE);
    assert_eq!(hints.flags, MWM_HINTS_FUNCTIONS);
    assert_eq!(hints.functions, MWM_FUNC_ALL | MWM_FUNC_CLOSE);
    assert!(!offered(&hints, MWM_FUNC_CLOSE));
    assert!(offered(&hints, MWM_FUNC_MINIMIZE));
}

#[test]
fn adding_to_unhonoured_functions_writes_nothing() {
    let mut hints = MotifHints::new();
    hints.add_func(MWM_FUNC_CLOSE);
    assert_eq!(hints, MotifHints::new());
}

#[test]
fn adding_under_all_strikes_the_exception() {
    let mut hints = MotifHints {
        flags: MWM_HINTS_FUNCTIONS,
        functions: MWM_FUNC_ALL | MWM_FUNC_CLOSE | MWM_FUNC_MINIMIZE,
        decorations: 0,
        input_mode: 0,
        status: 0,
    };
    hints.set_close_button(true);
    assert_eq!(hints.functions, MWM_FUNC_ALL | MWM_FUNC_MINIMIZE);
    assert!(offered(&hints, MWM_FUNC_CLOSE));
    assert!(!offered(&hints, MWM_FUNC_MINIMIZE));
}

#[test]
fn granting_in_list_mode_adds_the_bit() {
    let mut hints = MotifHints {
        flags: MWM_HINTS_FUNCTIONS,
        functions: MWM_FUNC_CLOSE,
        decorations: 0,
        input_mode: 0,
        status: 0,
    };
    hints.set_maximize_button(true);
    assert_eq!(hints.functions, MWM_FUNC_CLOSE | MWM_FUNC_MAXIMIZE);
    hints.set_close_button(false);
    assert_eq!(hints.functions, MWM_FUNC_MAXIMIZE);
    hints.set_minimize_button(false);
    assert_eq!(hints.functions, MWM_FUNC_MAXIMIZE);
}

#[test]
fn from_property_fills_missing_words_with_zero() {
    let hints = MotifHints::from_property(&[3, 33]);
    assert_eq!(hints.as_property(), [3, 33, 0, 0, 0]);
    assert_eq!(MotifHints::from_property(&[]), MotifHints::new());
    assert_eq!(MotifHints::from_property(&[1, 2, 3, 4, 5, 6]).as_property(), [1, 2, 3, 4, 5]);
}

#[test]
fn property_round_trips() {
    let hints = MotifHints { flags: 3, functions: 41, decorations: 1, input_mode: 2, status: 7 };
    assert_eq!(MotifHints::from_property(&hints.as_property()), hints);
}

#[test]
fn reply_of_the_wrong_shape_counts_as_no_hints() {
    let words = vec![3, 33, 1, 0, 0];
    assert_eq!(hints_from_reply(8, HINTS_ATOM, HINTS_ATOM, Some(words.clone())), MotifHints::new());
    assert_eq!(hints_from_reply(32, 1, HINTS_ATOM, Some(words.clone())), MotifHints::new());
    assert_eq!(hints_from_reply(32, HINTS_ATOM, HINTS_ATOM, None), MotifHints::new());
    assert_eq!(hints_from_reply(32, HINTS_ATOM, HINTS_ATOM, Some(vec![3, 33, 1, 0])), MotifHints::new());
    assert_eq!(hints_from_reply(0, 0, HINTS_ATOM, None), MotifHints::new());
}

#[test]
fn reply_of_five_words_is_read() {
    let hints = hints_from_reply(32, HINTS_ATOM, HINTS_ATOM, Some(vec![3, 33, 1, 4, 5, 99]));
    assert_eq!(hints.as_property(), [3, 33, 1, 4, 5]);
}

#[test]
fn default_settings_show_everything() {
    let hints = patched_motif_hints(MotifHints::new(), &LinuxChromeSettings::default());
    assert_eq!(hints.as_property(), [MWM_HINTS_DECORATIONS, 0, 1, 0, 0]);
    for func in [MWM_FUNC_CLOSE, MWM_FUNC_MINIMIZE, MWM_FUNC_MAXIMIZE] {
        assert!(offered(&hints, func));
    }
}

#[test]
fn hidden_chrome_takes_every_button_away() {
    let hints = patched_motif_hints(MotifHints::new(), &linux(false, false, false, false));
    assert_eq!(hints.decorations, 0);
    for func in [MWM_FUNC_CLOSE, MWM_FUNC_MINIMIZE, MWM_FUNC_MAXIMIZE] {
        assert!(!offered(&hints, func));
    }
}

#[test]
fn patched_hints_follow_each_button() {
    let starts = [
        MotifHints::new(),
        MotifHints { flags: 1, functions: 0, decorations: 0, input_mode: 2, status: 9 },
        MotifHints { flags: 3, functions: MWM_FUNC_ALL | MWM_FUNC_CLOSE, decorations: 0, input_mode: 0, status: 0 },
        MotifHints { flags: 1, functions: MWM_FUNC_CLOSE | MWM_FUNC_MAXIMIZE, decorations: 0, input_mode: 0, status: 0 },
    ];
    for start in starts {
        for bits in 0u8..16 {
            let settings =
                linux(bits & 1 != 0, bits & 2 != 0, bits & 4 != 0, bits & 8 != 0);
            let hints = patched_motif_hints(start, &settings);
            assert_eq!(hints.decorations != 0, settings.decorations);
            assert_eq!(offered(&hints, MWM_FUNC_CLOSE), settings.buttons.close);
            assert_eq!(offered(&hints, MWM_FUNC_MINIMIZE), settings.buttons.minimize);
            assert_eq!(offered(&hints, MWM_FUNC_MAXIMIZE), settings.buttons.maximize);
            assert_eq!(hints.input_mode, start.input_mode);
            assert_eq!(hints.status, start.status);
            assert_eq!(patched_motif_hints(hints, &settings), hints);
        }
    }
}

#[test]
fn wayland_is_a_no_op() {
    assert!(apply_wayland(&ChromeSettings::default()).is_ok());
}
