//! From a key to the session, and from what the session wants to the screen.
//!
//! The keyboard layout and the punctuation table belong to the engine. Where a function needs
//! them it takes what they gave: the character that a key makes with or without Shift, and
//! whether a character is in the table.

use vstd::prelude::*;

use crate::geometry::square;
use crate::ime;
use crate::ime::{Key, PunctMode, WidthMode};
use crate::text;
use crate::text::eq_ignoring_case;

verus! {

/// `char::from_u32`: the character of a code point; a surrogate, or a number past the last code
/// point, has none.
pub assume_specification[ char::from_u32 ](i: u32) -> (r: Option<char>)
    ensures
        r == (if i < 0xD800 || 0xE000 <= i <= 0x10FFFF {
            Some(i as char)
        } else {
            None::<char>
        }),
;

/// Whether a virtual key is one of the punctuation keys that are taken as they are.
pub open spec fn is_oem(vk: u16) -> bool {
    vk == 0xBA || vk == 0xBB || vk == 0xBD || vk == 0xBF || vk == 0xC0 || vk == 0xDB || vk == 0xDC
        || vk == 0xDD
}

/// The small letter of a letter key: that of the layout, or else the one of its name.
pub open spec fn letter_of(vk: u16, char_code: u32) -> char {
    if 0x61 <= char_code <= 0x7A {
        (char_code as u8) as char
    } else {
        ((vk + 0x20) as u8) as char
    }
}

/// The capital of a small letter.
pub open spec fn capital(c: char) -> char {
    if 'a' <= c && c <= 'z' {
        ((c as u8) - 32) as char
    } else {
        c
    }
}

/// The key of the session that a key of the keyboard stands for; `None` for one that goes to
/// the program. Whatever is held with Ctrl or Alt does, and so does a key of the digit row to
/// which the layout gives no digit from 1 to 9. `shifted` is the character that the layout gives
/// for `char_code` with Shift as it is.
pub open spec fn key_of(
    vk: u16,
    char_code: u32,
    shift: bool,
    caps: bool,
    ctrl: bool,
    alt: bool,
    shifted: char,
) -> Option<Key> {
    if ctrl || alt {
        None
    } else if vk == 0x08 {
        Some(Key::Backspace)
    } else if vk == 0x20 {
        Some(Key::Space)
    } else if vk == 0x0D {
        Some(Key::Enter)
    } else if vk == 0x1B {
        Some(Key::Esc)
    } else if 0x31 <= vk <= 0x39 {
        if !shift && 0x31 <= char_code <= 0x39 {
            Some(Key::Digit((char_code - 0x30) as u8))
        } else {
            None
        }
    } else if 0x41 <= vk <= 0x5A {
        if shift != caps {
            Some(Key::ShiftChar(capital(letter_of(vk, char_code))))
        } else {
            Some(Key::Char(letter_of(vk, char_code)))
        }
    } else if vk == 0xDE && !shift && char_code == 0x27 {
        Some(Key::Char('\''))
    } else if vk == 0xBC && !shift && char_code == 0x2C {
        Some(Key::Char(','))
    } else if vk == 0xBE && !shift && char_code == 0x2E {
        Some(Key::Char('.'))
    } else if is_oem(vk) && char_code != 0 {
        Some(Key::Char(shifted))
    } else {
        None
    }
}

/// The key of the session that a key of the keyboard stands for. A letter is a capital where
/// exactly one of Shift and Caps Lock is on.
pub fn map_key(
    vk: u16,
    char_code: u32,
    with_shift: bool,
    with_capslock: bool,
    with_ctrl: bool,
    with_alt: bool,
    shifted: char,
) -> (r: Option<Key>)
    ensures
        r == key_of(vk, char_code, with_shift, with_capslock, with_ctrl, with_alt, shifted),
{
    if with_ctrl || with_alt {
        return None;
    }
    match vk {
        0x08 => Some(Key::Backspace),
        0x20 => Some(Key::Space),
        0x0D => Some(Key::Enter),
        0x1B => Some(Key::Esc),
        0x31..=0x39 => {
            if !with_shift && char_code >= 0x31 && char_code <= 0x39 {
                Some(Key::Digit((char_code - 0x30) as u8))
            } else {
                None
            }
        },
        0x41..=0x5A => {
            let c: char = if char_code >= 0x61 && char_code <= 0x7A {
                (char_code as u8) as char
            } else {
                ((vk + 0x20) as u8) as char
            };
            if with_shift != with_capslock {
                Some(Key::ShiftChar(to_capital(c)))
            } else {
                Some(Key::Char(c))
            }
        },
        0xDE => if !with_shift && char_code == 0x27 {
            Some(Key::Char('\''))
        } else {
            None
        },
        0xBC => if !with_shift && char_code == 0x2C {
            Some(Key::Char(','))
        } else {
            None
        },
        0xBE => if !with_shift && char_code == 0x2E {
            Some(Key::Char('.'))
        } else {
            None
        },
        0xBA | 0xBB | 0xBD | 0xBF | 0xC0 | 0xDB | 0xDC | 0xDD => if char_code != 0 {
            Some(Key::Char(shifted))
        } else {
            None
        },
        _ => None,
    }
}

fn to_capital(c: char) -> (r: char)
    ensures
        r == capital(c),
{
    if 'a' <= c && c <= 'z' {
        ((c as u8) - 32) as char
    } else {
        c
    }
}

/// A letter key gives a letter, a capital exactly when one of Shift and Caps Lock is on, and
/// never more than that changes with them.
pub proof fn law_letter_keys(vk: u16, char_code: u32, shift: bool, caps: bool, shifted: char)
    requires
        0x41 <= vk <= 0x5A,
    ensures
        ({
            let k = key_of(vk, char_code, shift, caps, false, false, shifted);
            let plain = key_of(vk, char_code, false, false, false, false, shifted);
            &&& plain matches Some(Key::Char(c)) && 'a' <= c && c <= 'z'
            &&& k == if shift != caps {
                Some(Key::ShiftChar(capital(plain->0->Char_0)))
            } else {
                plain
            }
        }),
{
}

/// A key of the digit row gives a digit from 1 to 9 or goes to the program; on a layout that puts
/// the digits there, it gives its own.
pub proof fn law_digit_keys(
    vk: u16,
    char_code: u32,
    shift: bool,
    caps: bool,
    ctrl: bool,
    alt: bool,
    shifted: char,
)
    requires
        0x31 <= vk <= 0x39,
    ensures
        ({
            let k = key_of(vk, char_code, shift, caps, ctrl, alt, shifted);
            &&& k is None || (k matches Some(Key::Digit(d)) && 1 <= d <= 9)
            &&& !shift && !ctrl && !alt && char_code == vk ==> k == Some(
                Key::Digit((vk - 0x30) as u8),
            )
        }),
{
}

/// Caps Lock matters to the letters only.
pub proof fn law_caps_lock_letters_only(
    vk: u16,
    char_code: u32,
    shift: bool,
    ctrl: bool,
    alt: bool,
    shifted: char,
)
    requires
        vk < 0x41 || vk > 0x5A,
    ensures
        key_of(vk, char_code, shift, true, ctrl, alt, shifted) == key_of(
            vk,
            char_code,
            shift,
            false,
            ctrl,
            alt,
            shifted,
        ),
{
}

/// Ctrl and Alt combinations always go to the program.
pub proof fn law_modifiers_go_through(
    vk: u16,
    char_code: u32,
    shift: bool,
    caps: bool,
    ctrl: bool,
    alt: bool,
    shifted: char,
)
    requires
        ctrl || alt,
    ensures
        key_of(vk, char_code, shift, caps, ctrl, alt, shifted) is None,
{
}

/// Whether a key is a letter.
pub open spec fn letter_key(k: Key) -> bool {
    match k {
        Key::Char(c) => ime::is_letter(c),
        Key::ShiftChar(c) => ime::is_letter(c),
        _ => false,
    }
}

/// Whether a key is a letter.
fn is_letter_key(k: Key) -> (r: bool)
    ensures
        r == letter_key(k),
{
    match k {
        Key::Char(c) | Key::ShiftChar(c) => ('a' <= c && c <= 'z') || ('A' <= c && c <= 'Z'),
        _ => false,
    }
}

/// Whether a key begins a session: a letter, small or capital.
pub fn is_session_start_key(k: Key) -> (r: bool)
    ensures
        r == letter_key(k),
{
    is_letter_key(k)
}

/// Whether a key goes to the program because Caps Lock is on, which stands for English: a
/// letter does.
pub fn caps_passthrough(key: &Key, capslock: bool) -> (r: bool)
    ensures
        r == (capslock && letter_key(*key)),
{
    capslock && is_letter_key(*key)
}

/// Whether a program is on a list: the same name, up to the case of ASCII letters.
pub open spec fn on_list(exe: Seq<char>, list: Seq<String>) -> bool {
    exists|i: int| 0 <= i < list.len() && text::same_ignoring_case(#[trigger] list[i]@, exe)
}

/// Whether a program is on a list.
pub fn is_passthrough_app(exe: &str, list: &[String]) -> (r: bool)
    ensures
        r == on_list(exe@, list@),
{
    let mut i: usize = 0;
    while i < list.len()
        invariant
            i <= list@.len(),
            forall|k: int|
                0 <= k < i ==> !text::same_ignoring_case(#[trigger] list@[k]@, exe@),
        decreases list@.len() - i,
    {
        if eq_ignoring_case(list[i].as_str(), exe) {
            return true;
        }
        i = i + 1;
    }
    false
}

/// Whether the candidates are left to the program, since it draws them itself.
pub fn should_suppress_candidate_window(apps: &[String], exe: &str) -> (r: bool)
    ensures
        r == on_list(exe@, apps@),
{
    is_passthrough_app(exe, apps)
}

/// A program is on a list whatever the case of its letters, and on no list that is empty.
pub proof fn law_list_ignores_case(exe: Seq<char>, other: Seq<char>, list: Seq<String>)
    requires
        text::same_ignoring_case(exe, other),
    ensures
        on_list(exe, list) == on_list(other, list),
        list.len() == 0 ==> !on_list(exe, list),
{
    if on_list(exe, list) {
        let i = choose|i: int|
            0 <= i < list.len() && text::same_ignoring_case(#[trigger] list[i]@, exe);
        assert(text::same_ignoring_case(list[i]@, other));
    }
    if on_list(other, list) {
        let i = choose|i: int|
            0 <= i < list.len() && text::same_ignoring_case(#[trigger] list[i]@, other);
        assert forall|j: int| 0 <= j < list[i]@.len() implies text::ascii_lower(
            #[trigger] list[i]@[j],
        ) == text::ascii_lower(exe[j]) by {
            assert(text::ascii_lower(exe[j]) == text::ascii_lower(other[j]));
        }
        assert(text::same_ignoring_case(list[i]@, exe));
    }
}

/// The full-width form of a character: the space and the printable characters of ASCII have one.
pub open spec fn fullwidth_of(c: char) -> Option<char> {
    if c == ' ' {
        Some('\u{3000}')
    } else if '!' <= c && c <= '~' {
        Some(((c as u32) + 0xFEE0) as char)
    } else {
        None
    }
}

/// The full-width form of a character.
pub fn fullwidth(c: char) -> (r: Option<char>)
    ensures
        r == fullwidth_of(c),
{
    if c == ' ' {
        Some('\u{3000}')
    } else if '!' <= c && c <= '~' {
        char::from_u32(c as u32 + 0xFEE0)
    } else {
        None
    }
}

/// The character of English mode: a letter in the case that Shift and Caps Lock give, anything
/// else as the layout has it (`shifted`).
pub open spec fn english_char(base: char, shift: bool, caps: bool, shifted: char) -> char {
    if ime::is_letter(base) {
        if shift != caps {
            capital(base)
        } else {
            text::ascii_lower(base)
        }
    } else {
        shifted
    }
}

/// What a key types in full width; `None` where it is not typed so. In Chinese mode letters
/// belong to the session, and characters of the punctuation table (`in_table`) to the
/// punctuation, where that is Chinese.
pub open spec fn fullwidth_text(
    english_mode: bool,
    width: WidthMode,
    punct: PunctMode,
    base: char,
    shift: bool,
    caps: bool,
    shifted: char,
    in_table: bool,
) -> Option<char> {
    if width == WidthMode::Half || base as u32 >= 0x80 {
        None
    } else if english_mode {
        fullwidth_of(english_char(base, shift, caps, shifted))
    } else if ime::is_letter(base) || (punct == PunctMode::Chinese && in_table) {
        None
    } else {
        fullwidth_of(shifted)
    }
}

/// What a key types in full width. `shifted` is the character that the layout gives for `base`
/// with Shift as it is, `in_table` whether that is in the table of Chinese punctuation.
pub fn fullwidth_pending(
    english_mode: bool,
    width: WidthMode,
    punct: PunctMode,
    base: char,
    shift: bool,
    caps: bool,
    shifted: char,
    in_table: bool,
) -> (r: Option<String>)
    ensures
        match fullwidth_text(english_mode, width, punct, base, shift, caps, shifted, in_table) {
            Some(c) => r matches Some(s) && s@ == seq![c],
            None => r is None,
        },
{
    if width == WidthMode::Half || base as u32 >= 0x80 {
        return None;
    }
    let letter: bool = ('a' <= base && base <= 'z') || ('A' <= base && base <= 'Z');
    let c: char = if english_mode {
        if letter {
            if shift != caps {
                to_capital(base)
            } else {
                text::lower(base)
            }
        } else {
            shifted
        }
    } else {
        if letter || (punct == PunctMode::Chinese && in_table) {
            return None;
        }
        shifted
    };
    match fullwidth(c) {
        Some(w) => {
            let mut s: String = String::new();
            s.push(w);
            assert(s@ =~= seq![w]);
            Some(s)
        },
        None => None,
    }
}

/// A place in the text, on the screen.
#[derive(Clone, Copy, Debug, PartialEq, Eq, Structural)]
pub struct CaretRect {
    pub x: i32,
    pub y: i32,
    pub w: i32,
    pub h: i32,
}

/// How far the caret may move at one key before the candidates are taken for left behind, in
/// pixels.
pub const JUMP_THRESHOLD: i32 = 150;

/// Whether the caret has moved further than the threshold.
pub open spec fn jumped(a: CaretRect, b: CaretRect) -> bool {
    let dx = a.x - b.x;
    let dy = a.y - b.y;
    dx * dx + dy * dy > JUMP_THRESHOLD * JUMP_THRESHOLD
}

/// Whether the caret has moved further than the threshold.
pub fn caret_jumped(a: CaretRect, b: CaretRect) -> (r: bool)
    ensures
        r == jumped(a, b),
{
    let dx: i64 = a.x as i64 - b.x as i64;
    let dy: i64 = a.y as i64 - b.y as i64;
    square(dx) + square(dy) > (JUMP_THRESHOLD * JUMP_THRESHOLD) as i128
}

/// How a session ends.
#[derive(Debug, PartialEq, Eq)]
pub enum SessionEnd {
    Commit(String),
    Cancel,
}

/// What is done with the text that is being composed.
#[derive(Debug, PartialEq, Eq)]
pub enum CompositionCall {
    /// Put this text into the document and end.
    Commit(String),
    /// Take the text out of the document and end.
    Cancel,
    /// Show this text, and measure where the caret is.
    SetText(String),
}

/// What an effect does with the text that is being composed.
pub fn composition_call(end: &Option<SessionEnd>, composition: &str) -> (r: CompositionCall)
    ensures
        match *end {
            Some(SessionEnd::Commit(t)) => r matches CompositionCall::Commit(s) && s@ == t@,
            Some(SessionEnd::Cancel) => r == CompositionCall::Cancel,
            None => r matches CompositionCall::SetText(s) && s@ == composition@,
        },
{
    match end {
        Some(SessionEnd::Commit(t)) => CompositionCall::Commit(t.clone()),
        Some(SessionEnd::Cancel) => CompositionCall::Cancel,
        None => CompositionCall::SetText(composition.to_owned()),
    }
}

/// What the candidate window does.
#[derive(Clone, Copy, Debug, PartialEq, Eq, Structural)]
pub enum UiCall {
    Hide,
    /// Show the candidates where the window stands.
    Update,
    /// Show the candidates at the caret.
    Show,
}

/// What the candidate window does after an effect that does not end the session. A window
/// without anything to show hides, and so does one whose caret went far off.
pub open spec fn ui_call(prev: CaretRect, caret: CaretRect, empty: bool, visible: bool) -> UiCall {
    if empty {
        UiCall::Hide
    } else if visible {
        if jumped(prev, caret) {
            UiCall::Hide
        } else {
            UiCall::Update
        }
    } else {
        UiCall::Show
    }
}

/// Whether the caret went far off while candidates showed: what was typed is left behind, and the
/// session is over.
pub open spec fn left_behind(
    prev: CaretRect,
    measured: Option<CaretRect>,
    empty: bool,
    visible: bool,
) -> bool {
    !empty && visible && (measured matches Some(m) && jumped(prev, m))
}

/// Carries an effect on to the candidate window, after `composition_call` was done. `measured`
/// is where the caret was found, if it was; `empty` tells whether there is neither a candidate
/// nor a reading to show, `visible` whether the window shows. Says what the window does, and
/// whether the session is over: the effect ends it, and so does a caret that went far off. The
/// caller then drops it.
pub fn apply_effect(
    end: &Option<SessionEnd>,
    caret: &mut CaretRect,
    measured: Option<CaretRect>,
    empty: bool,
    visible: bool,
) -> (r: (UiCall, bool))
    ensures
        r.1 == (*end is Some || left_behind(*old(caret), measured, empty, visible)),
        *end is Some ==> r.0 == UiCall::Hide && *final(caret) == *old(caret),
        *end is None ==> {
            &&& *final(caret) == (match measured {
                Some(m) => m,
                None => *old(caret),
            })
            &&& r.0 == ui_call(*old(caret), *final(caret), empty, visible)
        },
{
    match end {
        Some(_) => (UiCall::Hide, true),
        None => {
            let prev: CaretRect = *caret;
            if let Some(m) = measured {
                *caret = m;
            }
            proof {
                let d = prev.x - prev.x;
                let e = prev.y - prev.y;
                assert(d * d == 0 && e * e == 0) by (nonlinear_arith)
                    requires
                        d == 0,
                        e == 0,
                ;
                assert(!jumped(prev, prev));
            }
            if empty {
                (UiCall::Hide, false)
            } else if visible {
                if caret_jumped(prev, *caret) {
                    (UiCall::Hide, true)
                } else {
                    (UiCall::Update, false)
                }
            } else {
                (UiCall::Show, false)
            }
        },
    }
}

/// Candidates to show hide only where they show already and the caret has moved further than the
/// threshold; the session is over exactly then. On one line that is a move of more than so many
/// pixels to either side, and no typing is: it keeps the candidates and the session.
pub proof fn law_typing_keeps_candidates(prev: CaretRect, caret: CaretRect, visible: bool)
    ensures
        ui_call(prev, caret, false, visible) == UiCall::Hide <==> visible && jumped(prev, caret),
        left_behind(prev, Some(caret), false, visible) <==> visible && jumped(prev, caret),
        !left_behind(prev, None, false, visible),
        caret.y == prev.y ==> (jumped(prev, caret) <==> !(-JUMP_THRESHOLD <= caret.x - prev.x
            <= JUMP_THRESHOLD)),
{
    let dx = prev.x - caret.x;
    assert(dx * dx > 150 * 150 <==> !(-150 <= dx <= 150)) by (nonlinear_arith);
}

/// What there is of the text that is being composed.
#[derive(Clone, Copy, Debug, PartialEq, Eq, Structural)]
pub enum CompositionState {
    /// There is none.
    Missing,
    /// The program has ended it.
    Terminated,
    Live,
}

/// What carrying an effect out comes to.
#[derive(Clone, Copy, Debug, PartialEq, Eq, Structural)]
pub struct Dispatched {
    /// What the candidate window does first, if anything.
    pub ui: Option<UiCall>,
    /// Whether the candidate window keeps silent from now on.
    pub suppressed: bool,
    /// Whether the session is over: the window hides, the list for the program ends, and
    /// session and composition are dropped.
    pub ended: bool,
}

/// Whether the list that the program can read is brought up to date before an effect is carried
/// out: while the session goes on.
pub fn syncs_element(end: &Option<SessionEnd>) -> (r: bool)
    ensures
        r == (*end is None),
{
    end.is_none()
}

/// Where the caret is after an effect.
pub open spec fn caret_after(
    comp: CompositionState,
    ends: bool,
    caret: CaretRect,
    measured: Option<CaretRect>,
) -> CaretRect {
    if comp == CompositionState::Live && !ends {
        match measured {
            Some(m) => m,
            None => caret,
        }
    } else {
        caret
    }
}

/// What carrying an effect out comes to. A composition that the program has ended drops the
/// session, and so does a caret that went far off; one that is missing only shows the candidates.
pub open spec fn dispatched(
    comp: CompositionState,
    ends: bool,
    caret: CaretRect,
    measured: Option<CaretRect>,
    empty: bool,
    visible: bool,
    suppress: bool,
) -> Dispatched {
    Dispatched {
        ui: match comp {
            CompositionState::Terminated => None,
            CompositionState::Missing => Some(
                if empty {
                    UiCall::Hide
                } else if visible {
                    UiCall::Update
                } else {
                    UiCall::Show
                },
            ),
            CompositionState::Live => Some(
                if ends {
                    UiCall::Hide
                } else {
                    ui_call(caret, caret_after(comp, ends, caret, measured), empty, visible)
                },
            ),
        },
        suppressed: suppress,
        ended: ends || comp == CompositionState::Terminated || (comp == CompositionState::Live
            && left_behind(caret, measured, empty, visible)),
    }
}

/// Carries an effect out, after the composition was dealt with. `suppress` tells whether the
/// program draws the candidates itself.
pub fn dispatch_effect(
    comp: CompositionState,
    end: &Option<SessionEnd>,
    caret: &mut CaretRect,
    measured: Option<CaretRect>,
    empty: bool,
    visible: bool,
    suppress: bool,
) -> (r: Dispatched)
    ensures
        r == dispatched(comp, *end is Some, *old(caret), measured, empty, visible, suppress),
        *final(caret) == caret_after(comp, *end is Some, *old(caret), measured),
{
    match comp {
        CompositionState::Terminated => Dispatched { ui: None, suppressed: suppress, ended: true },
        CompositionState::Missing => {
            let ui: UiCall = if empty {
                UiCall::Hide
            } else if visible {
                UiCall::Update
            } else {
                UiCall::Show
            };
            Dispatched { ui: Some(ui), suppressed: suppress, ended: end.is_some() }
        },
        CompositionState::Live => {
            let (ui, ended) = apply_effect(end, caret, measured, empty, visible);
            Dispatched { ui: Some(ui), suppressed: suppress, ended }
        },
    }
}

/// The keys that work on what was typed reach the session under their own names, however Shift
/// and Caps Lock are.
pub proof fn law_editing_keys(
    char_code: u32,
    shift: bool,
    caps: bool,
    shifted: char,
)
    ensures
        key_of(0x08, char_code, shift, caps, false, false, shifted) == Some(Key::Backspace),
        key_of(0x20, char_code, shift, caps, false, false, shifted) == Some(Key::Space),
        key_of(0x0D, char_code, shift, caps, false, false, shifted) == Some(Key::Enter),
        key_of(0x1B, char_code, shift, caps, false, false, shifted) == Some(Key::Esc),
{
}

/// A letter key types the letter that the layout gives for it, else that of its key: small, or
/// the same letter as a capital where exactly one of Shift and Caps Lock holds.
pub proof fn law_letters_by_layout(
    vk: u16,
    char_code: u32,
    shift: bool,
    caps: bool,
    shifted: char,
)
    requires
        0x41 <= vk <= 0x5A,
    ensures
        ({
            let small = if 0x61 <= char_code <= 0x7A {
                char_code as int
            } else {
                vk + 0x20
            };
            let k = key_of(vk, char_code, shift, caps, false, false, shifted);
            if shift != caps {
                k matches Some(Key::ShiftChar(c)) && c as int == small - 0x20
            } else {
                k matches Some(Key::Char(c)) && c as int == small
            }
        }),
{
}

/// A key of punctuation types what the layout gives for it with Shift as it is. The quote, the
/// comma and the period are such keys only without Shift, and by their own characters.
pub proof fn law_punctuation_keys(
    vk: u16,
    char_code: u32,
    shift: bool,
    caps: bool,
    shifted: char,
)
    requires
        char_code != 0,
    ensures
        ({
            let k = key_of(vk, char_code, shift, caps, false, false, shifted);
            &&& vk == 0xBA || vk == 0xBB || vk == 0xBD || vk == 0xBF || vk == 0xC0 || vk == 0xDB
                || vk == 0xDC || vk == 0xDD ==> k == Some(Key::Char(shifted))
            &&& vk == 0xDE ==> k == if !shift && char_code == 0x27 {
                Some(Key::Char('\''))
            } else {
                None
            }
            &&& vk == 0xBC ==> k == if !shift && char_code == 0x2C {
                Some(Key::Char(','))
            } else {
                None
            }
            &&& vk == 0xBE ==> k == if !shift && char_code == 0x2E {
                Some(Key::Char('.'))
            } else {
                None
            }
        }),
{
}

/// A key that is neither a letter, a digit from 1 to 9, punctuation nor one of the four that edit
/// is left to the shortcuts and to the program: arrows, paging keys, function keys and all else.
pub proof fn law_other_keys_are_free(
    vk: u16,
    char_code: u32,
    shift: bool,
    caps: bool,
    ctrl: bool,
    alt: bool,
    shifted: char,
)
    requires
        !(vk == 0x08 || vk == 0x0D || vk == 0x1B || vk == 0x20),
        !(0x31 <= vk <= 0x39),
        !(0x41 <= vk <= 0x5A),
        !(0xBA <= vk <= 0xC0) && !(0xDB <= vk <= 0xDE),
    ensures
        key_of(vk, char_code, shift, caps, ctrl, alt, shifted) is None,
{
}

/// A digit key without Shift gives the digit that the layout has on it.
pub proof fn law_digits_by_layout(
    vk: u16,
    digit: u32,
    caps: bool,
    shifted: char,
)
    requires
        0x31 <= vk <= 0x39,
        1 <= digit <= 9,
    ensures
        key_of(vk, (0x30 + digit) as u32, false, caps, false, false, shifted) == Some(
            Key::Digit(digit as u8),
        ),
        key_of(vk, (0x30 + digit) as u32, true, caps, false, false, shifted) is None,
{
}

/// The full-width form of a printable ASCII character stands as far behind the first of them as
/// the character behind the first printable one; a space has the ideographic space, and nothing
/// else has a form. So two characters never share one.
pub proof fn law_full_width_forms(c: char, d: char)
    ensures
        0x21 <= c as u32 <= 0x7E ==> (fullwidth_of(c) matches Some(w) && w as int - 0xFF01 == c as int
            - 0x21),
        c as u32 == 0x20 ==> (fullwidth_of(c) matches Some(w) && w as int == 0x3000),
        fullwidth_of(c) is Some <==> 0x20 <= c as u32 <= 0x7E,
        fullwidth_of(c) is Some && fullwidth_of(c) == fullwidth_of(d) ==> c == d,
{
}

/// What full width types, by mode. In half width nothing is widened. In English mode every
/// character that a key gives is, a letter as a capital where exactly one of Shift and Caps Lock
/// holds. In Chinese mode letters are left to the session, and what Chinese punctuation replaces
/// to that; the rest is widened.
pub proof fn law_full_width_by_mode(
    english: bool,
    width: WidthMode,
    punct: PunctMode,
    base: char,
    shift: bool,
    caps: bool,
    shifted: char,
    in_table: bool,
)
    ensures
        ({
            let t = fullwidth_text(english, width, punct, base, shift, caps, shifted, in_table);
            let letter = 0x41 <= base as u32 <= 0x5A || 0x61 <= base as u32 <= 0x7A;
            let small = if base as u32 >= 0x61 {
                base as int
            } else {
                base as int + 0x20
            };
            &&& width == WidthMode::Half ==> t is None
            &&& base as u32 >= 0x80 ==> t is None
            &&& width == WidthMode::Full && english && letter ==> (t matches Some(w) && w as int
                == 0xFEE0 + if shift != caps {
                small - 0x20
            } else {
                small
            })
            &&& !english && letter ==> t is None
            &&& !english && punct == PunctMode::Chinese && in_table ==> t is None
            &&& width == WidthMode::Full && (base as u32) < 0x80 && !letter && (english || punct
                == PunctMode::English || !in_table) ==> t == fullwidth_of(shifted)
        }),
{
}

/// A caret has jumped by its distance, the same there and back: never within a square of a
/// hundred and six pixels, always beyond a hundred and fifty along either axis.
pub proof fn law_jump_distance(a: CaretRect, b: CaretRect)
    ensures
        jumped(a, b) == jumped(b, a),
        !jumped(a, a),
        a.x - b.x > 150 || b.x - a.x > 150 || a.y - b.y > 150 || b.y - a.y > 150 ==> jumped(a, b),
        -106 <= a.x - b.x <= 106 && -106 <= a.y - b.y <= 106 ==> !jumped(a, b),
        a.x == b.x && -150 <= a.y - b.y <= 150 ==> !jumped(a, b),
        a.y == b.y && -150 <= a.x - b.x <= 150 ==> !jumped(a, b),
{
    let dx = a.x - b.x;
    let dy = a.y - b.y;
    assert((b.x - a.x) * (b.x - a.x) == dx * dx) by (nonlinear_arith)
        requires
            dx == a.x - b.x,
    ;
    assert((b.y - a.y) * (b.y - a.y) == dy * dy) by (nonlinear_arith)
        requires
            dy == a.y - b.y,
    ;
    assert(dx * dx >= 0 && dy * dy >= 0) by (nonlinear_arith);
    assert(dx > 150 || dx < -150 ==> dx * dx > 150 * 150) by (nonlinear_arith);
    assert(dy > 150 || dy < -150 ==> dy * dy > 150 * 150) by (nonlinear_arith);
    assert(-106 <= dx <= 106 ==> dx * dx <= 106 * 106) by (nonlinear_arith);
    assert(-106 <= dy <= 106 ==> dy * dy <= 106 * 106) by (nonlinear_arith);
    assert(-150 <= dx <= 150 ==> dx * dx <= 150 * 150) by (nonlinear_arith);
    assert(-150 <= dy <= 150 ==> dy * dy <= 150 * 150) by (nonlinear_arith);
    assert((a.x - a.x) * (a.x - a.x) == 0 && (a.y - a.y) * (a.y - a.y) == 0) by (nonlinear_arith);
    assert(a.x == b.x ==> dx * dx == 0) by (nonlinear_arith)
        requires
            dx == a.x - b.x,
    ;
    assert(a.y == b.y ==> dy * dy == 0) by (nonlinear_arith)
        requires
            dy == a.y - b.y,
    ;
}

/// Whatever becomes of the composition and of the session, the window keeps silent afterwards
/// exactly where the program draws the candidates itself.
pub proof fn law_silent_where_program_draws(
    comp: CompositionState,
    ends: bool,
    caret: CaretRect,
    measured: Option<CaretRect>,
    empty: bool,
    visible: bool,
    exe: Seq<char>,
    apps: Seq<String>,
)
    ensures
        dispatched(
            comp,
            ends,
            caret,
            measured,
            empty,
            visible,
            on_list(exe, apps),
        ).suppressed <==> exists|i: int|
            0 <= i < apps.len() && text::same_ignoring_case(#[trigger] apps[i]@, exe),
{
}

/// When a session is over: always where the effect ends it or the program has ended the
/// composition; of the others only where a caret that was found far off leaves candidates behind
/// that show. Then the window is off; else it shows exactly where there is something to show:
/// put up where it did not show, drawn anew where it did.
pub proof fn law_effect_ends_or_shows(
    comp: CompositionState,
    ends: bool,
    caret: CaretRect,
    measured: Option<CaretRect>,
    empty: bool,
    visible: bool,
    suppress: bool,
)
    ensures
        ({
            let d = dispatched(comp, ends, caret, measured, empty, visible, suppress);
            &&& ends ==> d.ended
            &&& comp == CompositionState::Terminated ==> d.ended && d.ui is None
            &&& comp != CompositionState::Terminated ==> d.ui is Some
            &&& d.ended && !ends && comp == CompositionState::Live ==> (measured matches Some(m)
                && jumped(caret, m)) && visible && !empty
            &&& comp == CompositionState::Live && !ends && visible && !empty && (measured matches Some(
                m,
            ) && jumped(caret, m)) ==> d.ended
            &&& comp == CompositionState::Missing ==> d.ended == ends
            &&& d.ended && comp == CompositionState::Live ==> d.ui == Some(UiCall::Hide)
            &&& !d.ended ==> {
                &&& d.ui == Some(UiCall::Hide) <==> empty
                &&& d.ui == Some(UiCall::Show) <==> !empty && !visible
                &&& d.ui == Some(UiCall::Update) <==> !empty && visible
            }
        }),
{
    law_jump_distance(caret, caret);
}

/// The remembered caret follows what is measured while a session goes on in a composition; a
/// caret that was not found, and an effect that ends the session, leave it.
pub proof fn law_caret_follows(
    comp: CompositionState,
    ends: bool,
    caret: CaretRect,
    measured: Option<CaretRect>,
)
    ensures
        comp == CompositionState::Live && !ends ==> (measured matches Some(m) ==> caret_after(
            comp,
            ends,
            caret,
            measured,
        ) == m),
        measured is None || ends || comp != CompositionState::Live ==> caret_after(
            comp,
            ends,
            caret,
            measured,
        ) == caret,
{
}

/// Only letters begin a session: of either case, and nothing else does.
pub proof fn law_letters_begin_sessions(k: Key)
    ensures
        letter_key(k) <==> (k matches Key::Char(c) && (0x41 <= c as u32 <= 0x5A || 0x61 <= c as u32
            <= 0x7A)) || (k matches Key::ShiftChar(c) && (0x41 <= c as u32 <= 0x5A || 0x61 <= c
            as u32 <= 0x7A)),
{
}

} // verus!
