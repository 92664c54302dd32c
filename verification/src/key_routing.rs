//! What happens to a key: the one decision that both asking about a key and handling it rest on.

use vstd::prelude::*;

use crate::ime;
use crate::ime::{Combo, Key, Keymap, PunctMode, SessionAction};
use crate::session_bridge;
use crate::session_bridge::{caps_passthrough, fullwidth_pending, is_session_start_key, map_key};
use crate::text_service::TextService;

verus! {

/// What is known of a key that was pressed, with what the keyboard layout and the table of
/// Chinese punctuation of the engine give for it.
#[derive(Debug)]
pub struct KeyFacts {
    /// The virtual key.
    pub vk: u16,
    /// What the layout gives for the key without Shift; 0 for nothing.
    pub char_code: u32,
    pub shift: bool,
    pub caps: bool,
    pub ctrl: bool,
    pub alt: bool,
    /// What the layout gives for `char_code` with Shift as it is.
    pub shifted: char,
    /// The Chinese punctuation for `shifted` while quotation marks are to be opened.
    pub opening: Option<String>,
    /// The same while a quotation mark is to be closed.
    pub closing: Option<String>,
    /// The key by which shortcuts know this one.
    pub base: Option<Key>,
    /// Whether the engine is there.
    pub engine: bool,
    /// Whether the keys of this program all go through.
    pub passthrough: bool,
}

impl KeyFacts {
    /// Whether the layout gives a character for the key.
    pub open spec fn has_char(self) -> bool {
        self.char_code < 0xD800 || 0xE000 <= self.char_code <= 0x10FFFF
    }
}

/// What happens to a key.
#[derive(Debug, PartialEq, Eq)]
pub enum KeyAction {
    /// It goes to the program.
    Pass,
    /// This text goes into the document.
    CommitText(String),
    /// It begins a session.
    StartSession(Key),
    /// It goes to the session.
    SessionKey(Key),
    /// It is a shortcut of the session.
    Shortcut(SessionAction),
}

/// What happens to a key, with a text by what it holds.
pub ghost enum Route {
    Pass,
    CommitText(Seq<char>),
    StartSession(Key),
    SessionKey(Key),
    Shortcut(SessionAction),
}

impl View for KeyAction {
    type V = Route;

    open spec fn view(&self) -> Route {
        match *self {
            KeyAction::Pass => Route::Pass,
            KeyAction::CommitText(t) => Route::CommitText(t@),
            KeyAction::StartSession(k) => Route::StartSession(k),
            KeyAction::SessionKey(k) => Route::SessionKey(k),
            KeyAction::Shortcut(a) => Route::Shortcut(a),
        }
    }
}

/// What a text holds, if there is one.
pub open spec fn held(t: Option<String>) -> Option<Seq<char>> {
    match t {
        Some(s) => Some(s@),
        None => None,
    }
}

/// The Chinese punctuation that a key types outside a session; quotation marks by turns open and
/// close.
pub open spec fn punct_text(s: TextService, f: KeyFacts) -> Option<Seq<char>> {
    if s.english_mode || s.session || f.ctrl || f.alt || s.runtime.punct == PunctMode::English
        || !f.has_char() {
        None
    } else if s.punct_quote_open {
        held(f.closing)
    } else {
        held(f.opening)
    }
}

/// Whether a key is a quotation mark.
pub open spec fn is_quote(f: KeyFacts) -> bool {
    f.shifted == '\'' || f.shifted == '"'
}

/// What a key types in full width outside a session.
pub open spec fn wide_text(s: TextService, f: KeyFacts) -> Option<char> {
    if f.ctrl || f.alt || s.session || !f.has_char() {
        None
    } else {
        session_bridge::fullwidth_text(
            s.english_mode,
            s.runtime.width,
            s.runtime.punct,
            f.char_code as char,
            f.shift,
            f.caps,
            f.shifted,
            f.closing is Some,
        )
    }
}

/// The shortcut that a key is inside a session.
pub open spec fn shortcut(k: Keymap, f: KeyFacts) -> Option<SessionAction> {
    match f.base {
        Some(base) => ime::action_of(
            k,
            Combo { ctrl: f.ctrl, alt: f.alt, shift: f.shift, win: false, base },
        ),
        None => None,
    }
}

/// What a key does that types nothing directly.
pub open spec fn session_route(s: TextService, k: Keymap, f: KeyFacts) -> Route {
    let key = session_bridge::key_of(
        f.vk,
        f.char_code,
        f.shift,
        f.caps,
        f.ctrl,
        f.alt,
        f.shifted,
    );
    if s.session {
        match shortcut(k, f) {
            Some(a) => Route::Shortcut(a),
            None => match key {
                Some(x) => Route::SessionKey(x),
                None => Route::Pass,
            },
        }
    } else {
        match key {
            Some(x) => if session_bridge::letter_key(x) && !f.caps {
                Route::StartSession(x)
            } else {
                Route::Pass
            },
            None => Route::Pass,
        }
    }
}

/// What happens to a key.
pub open spec fn routed(s: TextService, k: Keymap, f: KeyFacts) -> Route {
    if !f.engine || f.passthrough {
        Route::Pass
    } else if s.english_mode {
        match wide_text(s, f) {
            Some(c) => Route::CommitText(seq![c]),
            None => Route::Pass,
        }
    } else {
        match punct_text(s, f) {
            Some(t) => Route::CommitText(t),
            None => match wide_text(s, f) {
                Some(c) => Route::CommitText(seq![c]),
                None => session_route(s, k, f),
            },
        }
    }
}

fn copied(t: &Option<String>) -> (r: Option<String>)
    ensures
        held(r) == held(*t),
{
    match t {
        Some(s) => Some(s.clone()),
        None => None,
    }
}

impl TextService {
    /// The Chinese punctuation that a key types outside a session. The state of quotation marks
    /// is read, not changed: handling the key changes it.
    pub fn chinese_punct_pending(&self, f: &KeyFacts) -> (r: Option<String>)
        ensures
            held(r) == punct_text(*self, *f),
    {
        if self.english_mode || self.session || f.ctrl || f.alt {
            return None;
        }
        if self.runtime.punct == PunctMode::English {
            return None;
        }
        match char::from_u32(f.char_code) {
            Some(_) => if self.punct_quote_open {
                copied(&f.closing)
            } else {
                copied(&f.opening)
            },
            None => None,
        }
    }

    /// What a key types in full width outside a session.
    pub fn fullwidth_pending_compute(&self, f: &KeyFacts) -> (r: Option<String>)
        ensures
            match wide_text(*self, *f) {
                Some(c) => r matches Some(t) && t@ == seq![c],
                None => r is None,
            },
    {
        if f.ctrl || f.alt || self.session {
            return None;
        }
        match char::from_u32(f.char_code) {
            Some(base) => fullwidth_pending(
                self.english_mode,
                self.runtime.width,
                self.runtime.punct,
                base,
                f.shift,
                f.caps,
                f.shifted,
                f.closing.is_some(),
            ),
            None => None,
        }
    }

    /// Decides what happens to a key. Inside a session the shortcuts come first: a key that is
    /// bound to none and means nothing to the session goes to the program.
    pub fn route_key(&self, keymap: &Keymap, f: &KeyFacts) -> (r: KeyAction)
        ensures
            r@ == routed(*self, *keymap, *f),
    {
        if !f.engine || f.passthrough {
            return KeyAction::Pass;
        }
        if self.english_mode {
            return match self.fullwidth_pending_compute(f) {
                Some(t) => KeyAction::CommitText(t),
                None => KeyAction::Pass,
            };
        }
        if let Some(t) = self.chinese_punct_pending(f) {
            return KeyAction::CommitText(t);
        }
        if let Some(t) = self.fullwidth_pending_compute(f) {
            return KeyAction::CommitText(t);
        }
        if self.session {
            if let Some(base) = f.base {
                let combo: Combo = Combo {
                    ctrl: f.ctrl,
                    alt: f.alt,
                    shift: f.shift,
                    win: false,
                    base,
                };
                if let Some(a) = keymap.map(&combo) {
                    return KeyAction::Shortcut(a);
                }
            }
        }
        match map_key(f.vk, f.char_code, f.shift, f.caps, f.ctrl, f.alt, f.shifted) {
            Some(key) => if self.session {
                KeyAction::SessionKey(key)
            } else if !is_session_start_key(key) || caps_passthrough(&key, f.caps) {
                KeyAction::Pass
            } else {
                KeyAction::StartSession(key)
            },
            None => KeyAction::Pass,
        }
    }

    /// Whether a key will be taken. Nothing changes.
    pub fn test_key_down(&self, keymap: &Keymap, f: &KeyFacts) -> (r: bool)
        ensures
            r == !(routed(*self, *keymap, *f) is Pass),
    {
        match self.route_key(keymap, f) {
            KeyAction::Pass => false,
            _ => true,
        }
    }

    /// The instance after a key.
    pub open spec fn after_key(self, keymap: Keymap, f: KeyFacts) -> TextService {
        let s = TextService {
            remote_registered: self.remote_registered || (f.engine && self.daemon),
            ..self
        };
        match routed(self, keymap, f) {
            Route::CommitText(_) => TextService {
                punct_quote_open: if punct_text(self, f) is Some && is_quote(f) {
                    !self.punct_quote_open
                } else {
                    self.punct_quote_open
                },
                ..s
            },
            Route::StartSession(_) => TextService {
                session: true,
                composing: true,
                punct_quote_open: false,
                ..s
            },
            _ => s,
        }
    }

    /// Handles a key: says what happens to it, and whether the daemon is to be made the place
    /// that changes of the dictionary go to, which happens once, as soon as the engine is there.
    pub fn handle_key_down(&mut self, keymap: &Keymap, f: &KeyFacts) -> (r: (KeyAction, bool))
        ensures
            r.0@ == routed(*old(self), *keymap, *f),
            r.1 == (f.engine && old(self).daemon && !old(self).remote_registered),
            *final(self) == old(self).after_key(*keymap, *f),
    {
        let register: bool = f.engine && self.daemon && !self.remote_registered;
        let action: KeyAction = self.route_key(keymap, f);
        let next: TextService = self.stepped(&action, f, register);
        *self = next;
        (action, register)
    }

    /// The instance after a key for which `action` was decided.
    fn stepped(&self, action: &KeyAction, f: &KeyFacts, register: bool) -> (r: TextService)
        requires
            register == (f.engine && self.daemon && !self.remote_registered),
        ensures
            forall|k: Keymap|
                action@ == #[trigger] routed(*self, k, *f) ==> r == self.after_key(k, *f),
    {
        let s: TextService = TextService {
            remote_registered: self.remote_registered || register,
            ..*self
        };
        match action {
            KeyAction::CommitText(_) => {
                let turns: bool = (f.shifted == '\'' || f.shifted == '"')
                    && self.chinese_punct_pending(f).is_some();
                TextService { punct_quote_open: self.punct_quote_open != turns, ..s }
            },
            KeyAction::StartSession(_) => TextService {
                session: true,
                composing: true,
                punct_quote_open: false,
                ..s
            },
            _ => s,
        }
    }
}

/// What was said when a key was asked about holds when it is handled: the decision does not rest
/// on what handling a key may do first.
pub proof fn law_asked_then_handled(s: TextService, k: Keymap, f: KeyFacts, registered: bool)
    ensures
        routed(TextService { remote_registered: registered, ..s }, k, f) == routed(s, k, f),
{
}

/// Quotation marks open and close by turns: two of them in a row give the opening form and then
/// the closing one, and the third begins again.
pub proof fn law_quotes_alternate(s: TextService, k: Keymap, f: KeyFacts)
    requires
        is_quote(f),
        f.opening is Some,
        f.closing is Some,
        f.engine,
        !f.passthrough,
        punct_text(s, f) is Some,
    ensures
        ({
            let t = s.after_key(k, f);
            let u = t.after_key(k, f);
            &&& routed(s, k, f) == Route::CommitText(
                if s.punct_quote_open {
                    f.closing->0@
                } else {
                    f.opening->0@
                },
            )
            &&& routed(t, k, f) == Route::CommitText(
                if s.punct_quote_open {
                    f.opening->0@
                } else {
                    f.closing->0@
                },
            )
            &&& u.punct_quote_open == s.punct_quote_open
        }),
{
}

/// A session begins only in Chinese mode, outside a session, with a letter and without Caps
/// Lock, Ctrl or Alt; after it quotation marks open again.
pub proof fn law_session_begins(s: TextService, k: Keymap, f: KeyFacts)
    requires
        routed(s, k, f) is StartSession,
    ensures
        !s.english_mode && !s.session && !f.caps && !f.ctrl && !f.alt,
        session_bridge::letter_key(routed(s, k, f)->StartSession_0),
        !s.after_key(k, f).punct_quote_open,
        s.after_key(k, f).session,
{
}

/// Without an engine, and in a program whose keys go through, every key goes to the program, and
/// the session and the switches stay as they are.
pub proof fn law_transparent(s: TextService, k: Keymap, f: KeyFacts)
    requires
        !f.engine || f.passthrough,
    ensures
        routed(s, k, f) is Pass,
        s.after_key(k, f) == (TextService {
            remote_registered: s.after_key(k, f).remote_registered,
            ..s
        }),
{
}

/// In English mode a key types at most its own full-width form: no session begins, and no
/// Chinese punctuation comes.
pub proof fn law_english_mode(s: TextService, k: Keymap, f: KeyFacts)
    requires
        s.english_mode,
    ensures
        routed(s, k, f) is Pass || (routed(s, k, f) matches Route::CommitText(t) && t.len() == 1),
        s.runtime.width == ime::WidthMode::Half ==> routed(s, k, f) is Pass,
{
}

/// Inside a session a key that is bound to no shortcut and that the session does not know goes
/// to the program.
pub proof fn law_unbound_keys_go_through(s: TextService, k: Keymap, f: KeyFacts)
    requires
        s.session,
        !s.english_mode,
        shortcut(k, f) is None,
        session_bridge::key_of(f.vk, f.char_code, f.shift, f.caps, f.ctrl, f.alt, f.shifted)
            is None,
    ensures
        routed(s, k, f) is Pass,
{
}

/// No key changes the mode: the two places where it is kept go on agreeing.
pub proof fn law_keys_keep_mode(s: TextService, k: Keymap, f: KeyFacts)
    ensures
        s.mirrored() ==> s.after_key(k, f).mirrored(),
        s.after_key(k, f).runtime == s.runtime,
{
}

/// Inside a session, in Chinese mode, no key that the session knows goes to the program: unless
/// it is bound to a shortcut, it goes to the session as that key.
pub proof fn law_session_gets_its_keys(s: TextService, k: Keymap, f: KeyFacts, x: Key)
    requires
        f.engine,
        !f.passthrough,
        !s.english_mode,
        s.session,
        forall|a: SessionAction, base: Key|
            f.base == Some(base) ==> !(#[trigger] k.session(a)).holds(
                #[trigger] pressed_combo(f, base),
            ),
        session_bridge::key_of(f.vk, f.char_code, f.shift, f.caps, f.ctrl, f.alt, f.shifted)
            == Some(x),
    ensures
        routed(s, k, f) == Route::SessionKey(x),
{
    if let Some(base) = f.base {
        let c = pressed_combo(f, base);
        assert forall|a: SessionAction| !(#[trigger] k.session(a)).holds(c) by {}
        ime::law_bound_combination_acts(k, c, SessionAction::PagePrev);
    }
}

/// The combination that is pressed with a key.
pub open spec fn pressed_combo(f: KeyFacts, base: Key) -> Combo {
    Combo { ctrl: f.ctrl, alt: f.alt, shift: f.shift, win: false, base }
}

/// Inside a session, in Chinese mode, a combination that is bound to one action is that action,
/// whatever else the key may mean.
pub proof fn law_shortcuts_come_first(s: TextService, k: Keymap, f: KeyFacts, a: SessionAction)
    requires
        f.engine,
        !f.passthrough,
        !s.english_mode,
        s.session,
        f.base is Some,
        k.session(a).holds(pressed_combo(f, f.base->0)),
        forall|b: SessionAction|
            b != a ==> !(#[trigger] k.session(b)).holds(pressed_combo(f, f.base->0)),
    ensures
        routed(s, k, f) == Route::Shortcut(a),
{
    ime::law_bound_combination_acts(k, pressed_combo(f, f.base->0), a);
}

/// Inside a session nothing is typed past it, and outside of one no key is a shortcut or the
/// session's.
pub proof fn law_session_or_not(s: TextService, k: Keymap, f: KeyFacts)
    ensures
        s.session && !s.english_mode ==> !(routed(s, k, f) is CommitText) && !(routed(
            s,
            k,
            f,
        ) is StartSession),
        !s.session ==> !(routed(s, k, f) is SessionKey) && !(routed(s, k, f) is Shortcut),
{
}

/// Outside a session, in Chinese mode and without Caps Lock, Ctrl and Alt, a letter key begins a
/// session with its letter: small, or a capital with Shift.
pub proof fn law_letter_begins_session(s: TextService, k: Keymap, f: KeyFacts)
    requires
        f.engine,
        !f.passthrough,
        !s.english_mode,
        !s.session,
        0x41 <= f.vk <= 0x5A,
        0x61 <= f.char_code <= 0x7A,
        !f.caps && !f.ctrl && !f.alt,
        f.opening is None,
        f.closing is None,
    ensures
        ({
            let r = routed(s, k, f);
            &&& r is StartSession
            &&& !f.shift ==> r->StartSession_0 == Key::Char(f.char_code as char)
            &&& f.shift ==> r->StartSession_0 is ShiftChar && r->StartSession_0->ShiftChar_0 as int
                == f.char_code - 0x20
            &&& s.after_key(k, f).session
            &&& s.after_key(k, f).composing
        }),
{
}

/// Outside a session, in Chinese mode with Chinese punctuation, a key that has a Chinese form
/// types it: the opening form, or the closing one while a quotation is open.
pub proof fn law_punctuation_is_typed(s: TextService, k: Keymap, f: KeyFacts)
    requires
        f.engine,
        !f.passthrough,
        !s.english_mode,
        !s.session,
        !f.ctrl && !f.alt,
        f.char_code < 0xD800,
        s.runtime.punct == PunctMode::Chinese,
        f.opening is Some,
        f.closing is Some,
    ensures
        !s.punct_quote_open ==> routed(s, k, f) == Route::CommitText(f.opening->0@),
        s.punct_quote_open ==> routed(s, k, f) == Route::CommitText(f.closing->0@),
{
}

/// With English punctuation, in half width, no text is typed past the program: outside a session
/// a key begins one or goes through.
pub proof fn law_english_punctuation_types_nothing(s: TextService, k: Keymap, f: KeyFacts)
    requires
        s.runtime.punct == PunctMode::English,
        s.runtime.width == ime::WidthMode::Half,
    ensures
        !(routed(s, k, f) is CommitText),
{
}

/// In full width outside a session, a key types the full-width form of what it gives: in English
/// mode of anything printable, in Chinese mode with English punctuation of anything but letters.
pub proof fn law_full_width_is_typed(s: TextService, k: Keymap, f: KeyFacts)
    requires
        f.engine,
        !f.passthrough,
        !s.session,
        !f.ctrl && !f.alt,
        f.char_code < 0x80,
        s.runtime.width == ime::WidthMode::Full,
        s.english_mode || s.runtime.punct == PunctMode::English,
        0x20 <= f.shifted as u32 <= 0x7E,
        !(0x41 <= f.char_code <= 0x5A || 0x61 <= f.char_code <= 0x7A),
    ensures
        routed(s, k, f) == Route::CommitText(
            seq![
                if f.shifted == ' ' {
                    '\u{3000}'
                } else {
                    ((f.shifted as u32) + 0xFEE0) as char
                },
            ],
        ),
{
}

/// In English mode and full width a letter key types its full-width letter, a capital where
/// exactly one of Shift and Caps Lock holds.
pub proof fn law_full_width_letters(s: TextService, k: Keymap, f: KeyFacts)
    requires
        f.engine,
        !f.passthrough,
        !s.session,
        !f.ctrl && !f.alt,
        s.english_mode,
        s.runtime.width == ime::WidthMode::Full,
        0x61 <= f.char_code <= 0x7A,
    ensures
        routed(s, k, f) matches Route::CommitText(t) && t.len() == 1 && t[0] as int == 0xFEE0
            + f.char_code - if f.shift != f.caps {
            0x20int
        } else {
            0int
        },
{
    session_bridge::law_full_width_by_mode(
        true,
        s.runtime.width,
        s.runtime.punct,
        f.char_code as char,
        f.shift,
        f.caps,
        f.shifted,
        f.closing is Some,
    );
}

/// A key changes an instance little: a session is there afterwards exactly where there was one or
/// the key has begun one; quotation marks turn over exactly where one was typed as Chinese
/// punctuation, and begin anew with a session; the daemon is noted as the place for changes as
/// soon as there are an engine and a daemon. All else stays.
pub proof fn law_key_changes_little(s: TextService, k: Keymap, f: KeyFacts)
    ensures
        ({
            let t = s.after_key(k, f);
            let begins = routed(s, k, f) is StartSession;
            let quoted = (f.shifted == '\'' || f.shifted == '"') && !s.english_mode && !s.session
                && !f.ctrl && !f.alt && s.runtime.punct == PunctMode::Chinese && f.engine
                && !f.passthrough && f.char_code < 0xD800 && f.opening is Some && f.closing is Some;
            &&& t.session == (s.session || begins)
            &&& t.composing == (s.composing || begins)
            &&& begins ==> !t.punct_quote_open
            &&& quoted ==> t.punct_quote_open == !s.punct_quote_open
            &&& !begins && f.shifted != '\'' && f.shifted != '"' ==> t.punct_quote_open
                == s.punct_quote_open
            &&& !(routed(s, k, f) is CommitText) && !begins ==> t.punct_quote_open
                == s.punct_quote_open
            &&& t.remote_registered == (s.remote_registered || (f.engine && s.daemon))
            &&& t == (TextService {
                session: t.session,
                composing: t.composing,
                punct_quote_open: t.punct_quote_open,
                remote_registered: t.remote_registered,
                ..s
            })
        }),
{
}

} // verus!
