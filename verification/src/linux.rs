//! Motif window-manager hints (`_MOTIF_WM_HINTS`) for X11 windows.
//!
//! The property is five 32-bit words: flags, functions, decorations, input
//! mode and status. A flag bit says which of the following words the window
//! manager should honour. In the functions word, `MWM_FUNC_ALL` turns the
//! meaning of the other bits around: with it, they list the functions that
//! are taken away from "all"; without it, the functions that are granted.

use vstd::prelude::*;

use crate::error::Error;
use crate::settings::{ChromeSettings, LinuxChromeSettings};

verus! {

/// Flag bit: the functions word is to be honoured.
pub const MWM_HINTS_FUNCTIONS: u32 = 1;

/// Flag bit: the decorations word is to be honoured.
pub const MWM_HINTS_DECORATIONS: u32 = 2;

/// Functions bit: all functions, less those whose bits are also set.
pub const MWM_FUNC_ALL: u32 = 1;

/// Functions bit: the window can be minimized.
pub const MWM_FUNC_MINIMIZE: u32 = 8;

/// Functions bit: the window can be maximized.
pub const MWM_FUNC_MAXIMIZE: u32 = 16;

/// Functions bit: the window can be closed.
pub const MWM_FUNC_CLOSE: u32 = 32;

/// The five words of a `_MOTIF_WM_HINTS` property.
#[derive(Debug, Clone, Copy, PartialEq, Eq, Hash, Structural)]
pub struct MotifHints {
    pub flags: u32,
    pub functions: u32,
    pub decorations: u32,
    pub input_mode: u32,
    pub status: u32,
}

/// The hints of a window that has published none: every word zero.
pub open spec fn empty_hints() -> MotifHints {
    MotifHints { flags: 0, functions: 0, decorations: 0, input_mode: 0, status: 0 }
}

/// Whether the window manager is told to offer the functions of `func`
/// (a nonzero set of function bits without `MWM_FUNC_ALL`): always when the
/// functions word is not honoured, otherwise as that word says.
pub open spec fn function_allowed(hints: MotifHints, func: u32) -> bool {
    if hints.flags & MWM_HINTS_FUNCTIONS == 0 {
        true
    } else if hints.functions & MWM_FUNC_ALL != 0 {
        hints.functions & func == 0
    } else {
        hints.functions & func != 0
    }
}

/// Whether the window manager is told to draw decorations.
pub open spec fn decorations_shown(hints: MotifHints) -> bool {
    hints.flags & MWM_HINTS_DECORATIONS == 0 || hints.decorations != 0
}

/// The functions word after granting `func`.
pub open spec fn spec_add_func(hints: MotifHints, func: u32) -> MotifHints {
    if hints.flags & MWM_HINTS_FUNCTIONS != 0 {
        if hints.functions & MWM_FUNC_ALL != 0 {
            MotifHints { functions: hints.functions & !func, ..hints }
        } else {
            MotifHints { functions: hints.functions | func, ..hints }
        }
    } else {
        hints
    }
}

/// The hints after taking `func` away: the functions word is first made
/// honoured (as "all"), then `func` is struck from it.
pub open spec fn spec_remove_func(hints: MotifHints, func: u32) -> MotifHints {
    let h = if hints.flags & MWM_HINTS_FUNCTIONS == 0 {
        MotifHints { flags: hints.flags | MWM_HINTS_FUNCTIONS, functions: MWM_FUNC_ALL, ..hints }
    } else {
        hints
    };
    if h.functions & MWM_FUNC_ALL != 0 {
        MotifHints { functions: h.functions | func, ..h }
    } else {
        MotifHints { functions: h.functions & !func, ..h }
    }
}

/// The hints after granting (`enabled`) or taking away `func`.
pub open spec fn spec_set_function(hints: MotifHints, func: u32, enabled: bool) -> MotifHints {
    if enabled {
        spec_add_func(hints, func)
    } else {
        spec_remove_func(hints, func)
    }
}

/// The hints after asking for decorations to be shown or hidden.
pub open spec fn spec_set_decorations(hints: MotifHints, decorations: bool) -> MotifHints {
    MotifHints {
        flags: hints.flags | MWM_HINTS_DECORATIONS,
        decorations: if decorations { 1 } else { 0 },
        ..hints
    }
}

/// The hints that `settings` ask for, starting from `hints`: decorations,
/// then the close, minimize and maximize functions.
pub open spec fn spec_patched_hints(hints: MotifHints, settings: LinuxChromeSettings) -> MotifHints {
    spec_set_function(
        spec_set_function(
            spec_set_function(
                spec_set_decorations(hints, settings.decorations),
                MWM_FUNC_CLOSE,
                settings.buttons.close,
            ),
            MWM_FUNC_MINIMIZE,
            settings.buttons.minimize,
        ),
        MWM_FUNC_MAXIMIZE,
        settings.buttons.maximize,
    )
}

/// The word at `i` of a property, or 0 past its end.
pub open spec fn word_at(values: Seq<u32>, i: int) -> u32 {
    if 0 <= i < values.len() {
        values[i]
    } else {
        0
    }
}

/// The hints held by the words of a property, missing words taken as 0.
pub open spec fn spec_from_property(values: Seq<u32>) -> MotifHints {
    MotifHints {
        flags: word_at(values, 0),
        functions: word_at(values, 1),
        decorations: word_at(values, 2),
        input_mode: word_at(values, 3),
        status: word_at(values, 4),
    }
}

/// The words of the property that holds `hints`.
pub open spec fn spec_as_property(hints: MotifHints) -> Seq<u32> {
    seq![hints.flags, hints.functions, hints.decorations, hints.input_mode, hints.status]
}

/// The hints of a window, given what reading its `_MOTIF_WM_HINTS`
/// property returned: its format, its type, and its 32-bit words if it has
/// them. A property that is not five or more 32-bit words of the expected
/// type counts as no hints at all.
pub open spec fn spec_hints_from_reply(
    format: u8,
    property_type: u32,
    expected_type: u32,
    values: Option<Seq<u32>>,
) -> MotifHints {
    if format == 32 && property_type == expected_type && values is Some && values->0.len() >= 5 {
        spec_from_property(values->0)
    } else {
        empty_hints()
    }
}

fn word_or_zero(values: &[u32], i: usize) -> (r: u32)
    ensures
        r == word_at(values@, i as int),
{
    if i < values.len() {
        values[i]
    } else {
        0
    }
}

impl MotifHints {
    /// Hints with every word zero.
    pub fn new() -> (r: Self)
        ensures
            r == empty_hints(),
    {
        MotifHints { flags: 0, functions: 0, decorations: 0, input_mode: 0, status: 0 }
    }

    /// Asks for decorations to be shown or hidden.
    pub fn set_decorations(&mut self, decorations: bool)
        ensures
            *final(self) == spec_set_decorations(*old(self), decorations),
    {
        self.flags = self.flags | MWM_HINTS_DECORATIONS;
        self.decorations = if decorations { 1 } else { 0 };
    }

    /// Grants or takes away the close function.
    pub fn set_close_button(&mut self, enabled: bool)
        ensures
            *final(self) == spec_set_function(*old(self), MWM_FUNC_CLOSE, enabled),
    {
        self.set_function(MWM_FUNC_CLOSE, enabled);
    }

    /// Grants or takes away the minimize function.
    pub fn set_minimize_button(&mut self, enabled: bool)
        ensures
            *final(self) == spec_set_function(*old(self), MWM_FUNC_MINIMIZE, enabled),
    {
        self.set_function(MWM_FUNC_MINIMIZE, enabled);
    }

    /// Grants or takes away the maximize function.
    pub fn set_maximize_button(&mut self, enabled: bool)
        ensures
            *final(self) == spec_set_function(*old(self), MWM_FUNC_MAXIMIZE, enabled),
    {
        self.set_function(MWM_FUNC_MAXIMIZE, enabled);
    }

    /// Grants (`enabled`) or takes away the functions of `func`.
    pub fn set_function(&mut self, func: u32, enabled: bool)
        ensures
            *final(self) == spec_set_function(*old(self), func, enabled),
    {
        if enabled {
            self.add_func(func);
        } else {
            self.remove_func(func);
        }
    }

    /// Grants the functions of `func`. Nothing is written while the
    /// functions word is not honoured, since every function is then offered.
    pub fn add_func(&mut self, func: u32)
        ensures
            *final(self) == spec_add_func(*old(self), func),
    {
        if self.flags & MWM_HINTS_FUNCTIONS != 0 {
            if self.functions & MWM_FUNC_ALL != 0 {
                self.functions = self.functions & !func;
            } else {
                self.functions = self.functions | func;
            }
        }
    }

    /// Takes away the functions of `func`.
    pub fn remove_func(&mut self, func: u32)
        ensures
            *final(self) == spec_remove_func(*old(self), func),
    {
        if self.flags & MWM_HINTS_FUNCTIONS == 0 {
            self.flags = self.flags | MWM_HINTS_FUNCTIONS;
            self.functions = MWM_FUNC_ALL;
        }
        if self.functions & MWM_FUNC_ALL != 0 {
            self.functions = self.functions | func;
        } else {
            self.functions = self.functions & !func;
        }
    }

    /// Reads hints from the words of a property; missing words count as 0.
    pub fn from_property(values: &[u32]) -> (r: Self)
        ensures
            r == spec_from_property(values@),
    {
        MotifHints {
            flags: word_or_zero(values, 0),
            functions: word_or_zero(values, 1),
            decorations: word_or_zero(values, 2),
            input_mode: word_or_zero(values, 3),
            status: word_or_zero(values, 4),
        }
    }

    /// The five words of the property that holds these hints.
    pub fn as_property(self) -> (r: [u32; 5])
        ensures
            r@ == spec_as_property(self),
    {
        let r = [self.flags, self.functions, self.decorations, self.input_mode, self.status];
        assert(r@ =~= spec_as_property(self));
        r
    }
}

/// The hints of a window, from what reading its `_MOTIF_WM_HINTS` property
/// returned: the property's format and type, the type that was asked for,
/// and its 32-bit words when it has a 32-bit format.
pub fn hints_from_reply(
    format: u8,
    property_type: u32,
    expected_type: u32,
    values: Option<Vec<u32>>,
) -> (r: MotifHints)
    ensures
        r == spec_hints_from_reply(
            format,
            property_type,
            expected_type,
            match values {
                Some(v) => Some(v@),
                None => None,
            },
        ),
        format == 32 && property_type == expected_type && values is Some && values->0@.len()
            >= 5 ==> r == (MotifHints {
            flags: values->0@[0],
            functions: values->0@[1],
            decorations: values->0@[2],
            input_mode: values->0@[3],
            status: values->0@[4],
        }),
        format != 32 || property_type != expected_type || values is None || values->0@.len()
            < 5 ==> r == (MotifHints {
            flags: 0,
            functions: 0,
            decorations: 0,
            input_mode: 0,
            status: 0,
        }),
{
    if format != 32 || property_type != expected_type {
        return MotifHints::new();
    }
    match values {
        Some(words) => {
            if words.len() < 5 {
                MotifHints::new()
            } else {
                MotifHints::from_property(words.as_slice())
            }
        },
        None => MotifHints::new(),
    }
}

/// The hints that the Linux section of the settings asks for, starting from
/// the window's current hints.
pub fn patched_motif_hints(current: MotifHints, settings: &LinuxChromeSettings) -> (r: MotifHints)
    ensures
        r == spec_patched_hints(current, *settings),
{
    let mut hints = current;
    hints.set_decorations(settings.decorations);
    hints.set_close_button(settings.buttons.close);
    hints.set_minimize_button(settings.buttons.minimize);
    hints.set_maximize_button(settings.buttons.maximize);
    hints
}

/// Wayland has no equivalent of these hints: patching there is a no-op
/// that always succeeds.
pub fn apply_wayland(settings: &ChromeSettings) -> (r: Result<(), Error>)
    ensures
        r == Ok::<(), Error>(()),
{
    Ok(())
}


/// A nonzero set of function bits that does not hold `MWM_FUNC_ALL`.
pub open spec fn is_function_set(func: u32) -> bool {
    func != 0 && func & MWM_FUNC_ALL == 0
}

proof fn lemma_add_func_semantics(hints: MotifHints, func: u32, other: u32)
    requires
        is_function_set(func),
        is_function_set(other),
        other & func == 0,
    ensures
        function_allowed(spec_add_func(hints, func), func),
        function_allowed(spec_add_func(hints, func), other) == function_allowed(hints, other),
        decorations_shown(spec_add_func(hints, func)) == decorations_shown(hints),
{
    let f = hints.flags;
    let w = hints.functions;
    if f & 1 != 0 {
        if w & 1 != 0 {
            assert((w & !func) & 1 != 0 && (w & !func) & func == 0 && ((w & !func) & other == 0)
                == (w & other == 0)) by (bit_vector)
                requires
                    w & 1 != 0,
                    func != 0,
                    func & 1 == 0,
                    other & func == 0,
            ;
        } else {
            assert((w | func) & 1 == 0 && (w | func) & func != 0 && ((w | func) & other != 0) == (w
                & other != 0)) by (bit_vector)
                requires
                    w & 1 == 0,
                    func != 0,
                    func & 1 == 0,
                    other & func == 0,
            ;
        }
    }
}

proof fn lemma_remove_func_semantics(hints: MotifHints, func: u32, other: u32)
    requires
        is_function_set(func),
        is_function_set(other),
        other & func == 0,
    ensures
        !function_allowed(spec_remove_func(hints, func), func),
        function_allowed(spec_remove_func(hints, func), other) == function_allowed(hints, other),
        decorations_shown(spec_remove_func(hints, func)) == decorations_shown(hints),
{
    let f = hints.flags;
    let w = hints.functions;
    if f & 1 == 0 {
        assert((f | 1) & 1 != 0 && (f | 1) & 2 == f & 2 && 1u32 & 1u32 != 0) by (bit_vector);
        assert((1u32 | func) & 1 != 0 && (1u32 | func) & func != 0 && (1u32 | func) & other == 0)
            by (bit_vector)
            requires
                func & 1 == 0,
                func != 0,
                other & func == 0,
                other & 1 == 0,
        ;
    } else {
        if w & 1 != 0 {
            assert((w | func) & 1 != 0 && (w | func) & func != 0 && ((w | func) & other == 0) == (w
                & other == 0)) by (bit_vector)
                requires
                    w & 1 != 0,
                    func != 0,
                    other & func == 0,
            ;
        } else {
            assert((w & !func) & 1 == 0 && (w & !func) & func == 0 && ((w & !func) & other != 0)
                == (w & other != 0)) by (bit_vector)
                requires
                    w & 1 == 0,
                    other & func == 0,
            ;
        }
    }
}

/// Granting or taking away a set of functions decides exactly whether
/// those functions are offered, and leaves the offer of every function
/// outside the set, and the decorations, as they were.
pub proof fn lemma_set_function_semantics(hints: MotifHints, func: u32, enabled: bool, other: u32)
    requires
        is_function_set(func),
        is_function_set(other),
        other & func == 0,
    ensures
        function_allowed(spec_set_function(hints, func, enabled), func) == enabled,
        function_allowed(spec_set_function(hints, func, enabled), other) == function_allowed(
            hints,
            other,
        ),
        decorations_shown(spec_set_function(hints, func, enabled)) == decorations_shown(hints),
        spec_set_function(hints, func, enabled).input_mode == hints.input_mode,
        spec_set_function(hints, func, enabled).status == hints.status,
        spec_set_function(hints, func, enabled).decorations == hints.decorations,
{
    if enabled {
        lemma_add_func_semantics(hints, func, other);
    } else {
        lemma_remove_func_semantics(hints, func, other);
    }
}

/// Asking for decorations decides whether they are shown and leaves the
/// offer of every function as it was.
pub proof fn lemma_set_decorations_semantics(hints: MotifHints, decorations: bool, func: u32)
    ensures
        decorations_shown(spec_set_decorations(hints, decorations)) == decorations,
        function_allowed(spec_set_decorations(hints, decorations), func) == function_allowed(
            hints,
            func,
        ),
{
    let f = hints.flags;
    assert((f | 2) & 2 != 0 && (f | 2) & 1 == f & 1) by (bit_vector);
}

/// The patched hints say exactly what the Linux settings ask: decorations
/// shown iff asked for, and each of close, minimize and maximize offered iff
/// its button is wanted; the input mode and status words are kept.
pub proof fn lemma_patched_hints_reflect_settings(hints: MotifHints, settings: LinuxChromeSettings)
    ensures
        decorations_shown(spec_patched_hints(hints, settings)) == settings.decorations,
        function_allowed(spec_patched_hints(hints, settings), MWM_FUNC_CLOSE)
            == settings.buttons.close,
        function_allowed(spec_patched_hints(hints, settings), MWM_FUNC_MINIMIZE)
            == settings.buttons.minimize,
        function_allowed(spec_patched_hints(hints, settings), MWM_FUNC_MAXIMIZE)
            == settings.buttons.maximize,
        spec_patched_hints(hints, settings).input_mode == hints.input_mode,
        spec_patched_hints(hints, settings).status == hints.status,
{
    let h1 = spec_set_decorations(hints, settings.decorations);
    let h2 = spec_set_function(h1, MWM_FUNC_CLOSE, settings.buttons.close);
    let h3 = spec_set_function(h2, MWM_FUNC_MINIMIZE, settings.buttons.minimize);
    let h4 = spec_set_function(h3, MWM_FUNC_MAXIMIZE, settings.buttons.maximize);
    assert(32u32 & 1 == 0 && 8u32 & 1 == 0 && 16u32 & 1 == 0 && 8u32 & 32 == 0 && 16u32 & 32 == 0
        && 32u32 & 8 == 0 && 16u32 & 8 == 0 && 32u32 & 16 == 0 && 8u32 & 16 == 0) by (bit_vector);
    lemma_set_decorations_semantics(hints, settings.decorations, MWM_FUNC_CLOSE);
    lemma_set_function_semantics(h1, MWM_FUNC_CLOSE, settings.buttons.close, MWM_FUNC_MINIMIZE);
    lemma_set_function_semantics(h2, MWM_FUNC_MINIMIZE, settings.buttons.minimize, MWM_FUNC_CLOSE);
    lemma_set_function_semantics(h3, MWM_FUNC_MAXIMIZE, settings.buttons.maximize, MWM_FUNC_CLOSE);
    lemma_set_function_semantics(
        h3,
        MWM_FUNC_MAXIMIZE,
        settings.buttons.maximize,
        MWM_FUNC_MINIMIZE,
    );
}

spec fn step_flags(flags: u32, enabled: bool) -> u32 {
    if !enabled && flags & 1 == 0 {
        flags | 1
    } else {
        flags
    }
}

spec fn step_functions(flags: u32, functions: u32, func: u32, enabled: bool) -> u32 {
    if enabled {
        if flags & 1 != 0 {
            if functions & 1 != 0 {
                functions & !func
            } else {
                functions | func
            }
        } else {
            functions
        }
    } else {
        let w = if flags & 1 == 0 {
            1u32
        } else {
            functions
        };
        if w & 1 != 0 {
            w | func
        } else {
            w & !func
        }
    }
}

proof fn lemma_set_function_words(hints: MotifHints, func: u32, enabled: bool)
    ensures
        spec_set_function(hints, func, enabled) == (MotifHints {
            flags: step_flags(hints.flags, enabled),
            functions: step_functions(hints.flags, hints.functions, func, enabled),
            ..hints
        }),
{
    assert(1u32 & 1u32 != 0) by (bit_vector);
}

/// Patching is idempotent: applying the same Linux settings to hints that
/// were already patched with them changes nothing.
pub proof fn lemma_patched_hints_idempotent(hints: MotifHints, settings: LinuxChromeSettings)
    ensures
        spec_patched_hints(spec_patched_hints(hints, settings), settings) == spec_patched_hints(
            hints,
            settings,
        ),
{
    let c = settings.buttons.close;
    let n = settings.buttons.minimize;
    let x = settings.buttons.maximize;
    let p = spec_patched_hints(hints, settings);
    let h1 = spec_set_decorations(hints, settings.decorations);
    let h2 = spec_set_function(h1, MWM_FUNC_CLOSE, c);
    let h3 = spec_set_function(h2, MWM_FUNC_MINIMIZE, n);
    lemma_set_function_words(h1, MWM_FUNC_CLOSE, c);
    lemma_set_function_words(h2, MWM_FUNC_MINIMIZE, n);
    lemma_set_function_words(h3, MWM_FUNC_MAXIMIZE, x);
    let g1 = spec_set_decorations(p, settings.decorations);
    let g2 = spec_set_function(g1, MWM_FUNC_CLOSE, c);
    let g3 = spec_set_function(g2, MWM_FUNC_MINIMIZE, n);
    lemma_set_function_words(g1, MWM_FUNC_CLOSE, c);
    lemma_set_function_words(g2, MWM_FUNC_MINIMIZE, n);
    lemma_set_function_words(g3, MWM_FUNC_MAXIMIZE, x);
    let f = hints.flags;
    let w = hints.functions;
    let f1 = f | 2;
    let f2 = step_flags(f1, c);
    let w2 = step_functions(f1, w, 32, c);
    let f3 = step_flags(f2, n);
    let w3 = step_functions(f2, w2, 8, n);
    let f4 = step_flags(f3, x);
    let w4 = step_functions(f3, w3, 16, x);
    let e1 = f4 | 2;
    let e2 = step_flags(e1, c);
    let v2 = step_functions(e1, w4, 32, c);
    let e3 = step_flags(e2, n);
    let v3 = step_functions(e2, v2, 8, n);
    let e4 = step_flags(e3, x);
    let v4 = step_functions(e3, v3, 16, x);
    assert(e4 == f4 && v4 == w4) by (bit_vector)
        requires
            f1 == f | 2,
            f2 == step_flags(f1, c),
            w2 == step_functions(f1, w, 32, c),
            f3 == step_flags(f2, n),
            w3 == step_functions(f2, w2, 8, n),
            f4 == step_flags(f3, x),
            w4 == step_functions(f3, w3, 16, x),
            e1 == f4 | 2,
            e2 == step_flags(e1, c),
            v2 == step_functions(e1, w4, 32, c),
            e3 == step_flags(e2, n),
            v3 == step_functions(e2, v2, 8, n),
            e4 == step_flags(e3, x),
            v4 == step_functions(e3, v3, 16, x),
    ;
}

/// A well-formed reply (32-bit words of the expected type, at least five
/// of them) is read as the window's existing hints: its first five words are
/// the flags, functions, decorations, input mode and status, and any further
/// words are ignored. Any other reply counts as no hints: every word zero.
pub proof fn lemma_hints_from_reply_reads_words(
    format: u8,
    property_type: u32,
    expected_type: u32,
    values: Option<Seq<u32>>,
)
    ensures
        format == 32 && property_type == expected_type && values is Some && values->0.len() >= 5
            ==> spec_hints_from_reply(format, property_type, expected_type, values) == (
        MotifHints {
            flags: values->0[0],
            functions: values->0[1],
            decorations: values->0[2],
            input_mode: values->0[3],
            status: values->0[4],
        }),
        !(format == 32 && property_type == expected_type && values is Some && values->0.len()
            >= 5) ==> spec_hints_from_reply(format, property_type, expected_type, values) == (
        MotifHints { flags: 0, functions: 0, decorations: 0, input_mode: 0, status: 0 }),
{
}

/// A reply of exactly five 32-bit words of the expected type is read word
/// for word.
pub proof fn lemma_five_word_reply(t: u32, a: u32, b: u32, c: u32, d: u32, e: u32)
    ensures
        spec_hints_from_reply(32, t, t, Some(seq![a, b, c, d, e])) == (MotifHints {
            flags: a,
            functions: b,
            decorations: c,
            input_mode: d,
            status: e,
        }),
{
    lemma_hints_from_reply_reads_words(32, t, t, Some(seq![a, b, c, d, e]));
}

/// Reading back the property that holds some hints gives those hints.
pub proof fn lemma_property_round_trip(hints: MotifHints)
    ensures
        spec_from_property(spec_as_property(hints)) == hints,
{
}

} // verus!
