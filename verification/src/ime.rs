//! The vocabulary of the input method: its four switches, keys, key combinations and the
//! shortcut map.

use vstd::prelude::*;

verus! {

/// Whether keys make Chinese or go through as they are.
#[derive(Clone, Copy, Debug, PartialEq, Eq, Structural)]
pub enum InitialMode {
    Chinese,
    English,
}

/// Half-width or full-width output.
#[derive(Clone, Copy, Debug, PartialEq, Eq, Structural)]
pub enum WidthMode {
    Half,
    Full,
}

/// Simplified or traditional characters.
#[derive(Clone, Copy, Debug, PartialEq, Eq, Structural)]
pub enum ScriptMode {
    Simplified,
    Traditional,
}

/// Chinese or English punctuation.
#[derive(Clone, Copy, Debug, PartialEq, Eq, Structural)]
pub enum PunctMode {
    Chinese,
    English,
}

/// How the candidates stand: below each other, or beside each other in one row.
#[derive(Clone, Copy, Debug, PartialEq, Eq, Structural)]
pub enum Orientation {
    Vertical,
    Horizontal,
}

/// The four switches of an instance of the input method.
#[derive(Clone, Copy, Debug, PartialEq, Eq, Structural)]
pub struct ImeState {
    pub mode: InitialMode,
    pub width: WidthMode,
    pub script: ScriptMode,
    pub punct: PunctMode,
}

/// Chinese mode, half width, simplified characters, Chinese punctuation.
pub open spec fn default_state() -> ImeState {
    ImeState {
        mode: InitialMode::Chinese,
        width: WidthMode::Half,
        script: ScriptMode::Simplified,
        punct: PunctMode::Chinese,
    }
}

impl Default for ImeState {
    fn default() -> (r: ImeState)
        ensures
            r == default_state(),
    {
        ImeState {
            mode: InitialMode::Chinese,
            width: WidthMode::Half,
            script: ScriptMode::Simplified,
            punct: PunctMode::Chinese,
        }
    }
}

/// A key as the session and the shortcut map see it.
#[derive(Clone, Copy, Debug, PartialEq, Eq, Structural)]
pub enum Key {
    Char(char),
    ShiftChar(char),
    Digit(u8),
    Backspace,
    Space,
    Enter,
    Esc,
    Tab,
    Left,
    Right,
    Up,
    Down,
    PageUp,
    PageDown,
    Home,
    End,
    Insert,
    Delete,
    F1,
    F2,
    F3,
    F4,
    F5,
    F6,
    F7,
    F8,
    F9,
    F10,
    F11,
    F12,
}

/// Whether a character is an ASCII letter.
pub open spec fn is_letter(c: char) -> bool {
    ('a' <= c && c <= 'z') || ('A' <= c && c <= 'Z')
}

/// A key with the modifiers that are held with it.
#[derive(Clone, Copy, Debug, PartialEq, Eq, Structural)]
pub struct Combo {
    pub ctrl: bool,
    pub alt: bool,
    pub shift: bool,
    pub win: bool,
    pub base: Key,
}

impl Combo {
    /// A key alone.
    pub fn plain(base: Key) -> (r: Combo)
        ensures
            r == (Combo { ctrl: false, alt: false, shift: false, win: false, base }),
    {
        Combo { ctrl: false, alt: false, shift: false, win: false, base }
    }

    /// A key with Shift.
    pub fn shifted(base: Key) -> (r: Combo)
        ensures
            r == (Combo { ctrl: false, alt: false, shift: true, win: false, base }),
    {
        Combo { ctrl: false, alt: false, shift: true, win: false, base }
    }

    /// Whether any modifier is held.
    pub open spec fn modified(self) -> bool {
        self.ctrl || self.alt || self.shift || self.win
    }

    /// Whether any modifier is held.
    pub fn has_modifier(&self) -> (r: bool)
        ensures
            r == self.modified(),
    {
        self.ctrl || self.alt || self.shift || self.win
    }

    /// Whether the key is a letter key.
    pub open spec fn on_letter(self) -> bool {
        self.base matches Key::Char(c) && is_letter(c)
    }

    /// Whether the key is a letter key.
    pub fn base_is_letter(&self) -> (r: bool)
        ensures
            r == self.on_letter(),
    {
        match self.base {
            Key::Char(c) => ('a' <= c && c <= 'z') || ('A' <= c && c <= 'Z'),
            _ => false,
        }
    }
}

/// The two combinations that an action may be bound to.
#[derive(Clone, Copy, Debug, PartialEq, Eq, Structural)]
pub struct TwoSlot {
    pub primary: Option<Combo>,
    pub secondary: Option<Combo>,
}

impl TwoSlot {
    /// Whether one of the two combinations is `c`.
    pub open spec fn holds(self, c: Combo) -> bool {
        self.primary == Some(c) || self.secondary == Some(c)
    }
}

/// What a shortcut does inside a session.
#[derive(Clone, Copy, Debug, PartialEq, Eq, Structural)]
pub enum SessionAction {
    PagePrev,
    PageNext,
    CandidatePrev,
    CandidateNext,
    SwapLeft,
    SwapRight,
    HideCandidate,
}

/// What a shortcut does anywhere on the system.
#[derive(Clone, Copy, Debug, PartialEq, Eq, Structural)]
pub enum GlobalAction {
    ToggleMode,
    ToggleWidth,
    ToggleScript,
    TogglePunct,
    OpenSettings,
    ToggleToolbar,
}

/// The shortcuts: seven session actions and six global ones, two slots each.
#[derive(Clone, Copy, Debug, PartialEq, Eq, Structural)]
pub struct Keymap {
    pub page_prev: TwoSlot,
    pub page_next: TwoSlot,
    pub candidate_prev: TwoSlot,
    pub candidate_next: TwoSlot,
    pub swap_left: TwoSlot,
    pub swap_right: TwoSlot,
    pub hide_candidate: TwoSlot,
    pub toggle_mode: TwoSlot,
    pub toggle_width: TwoSlot,
    pub toggle_script: TwoSlot,
    pub toggle_punct: TwoSlot,
    pub open_settings: TwoSlot,
    pub toggle_toolbar: TwoSlot,
}

impl Keymap {
    /// The slots of a session action.
    pub open spec fn session(self, a: SessionAction) -> TwoSlot {
        match a {
            SessionAction::PagePrev => self.page_prev,
            SessionAction::PageNext => self.page_next,
            SessionAction::CandidatePrev => self.candidate_prev,
            SessionAction::CandidateNext => self.candidate_next,
            SessionAction::SwapLeft => self.swap_left,
            SessionAction::SwapRight => self.swap_right,
            SessionAction::HideCandidate => self.hide_candidate,
        }
    }

    /// The slots of a global action.
    pub open spec fn global(self, a: GlobalAction) -> TwoSlot {
        match a {
            GlobalAction::ToggleMode => self.toggle_mode,
            GlobalAction::ToggleWidth => self.toggle_width,
            GlobalAction::ToggleScript => self.toggle_script,
            GlobalAction::TogglePunct => self.toggle_punct,
            GlobalAction::OpenSettings => self.open_settings,
            GlobalAction::ToggleToolbar => self.toggle_toolbar,
        }
    }

    /// The slots of a session action.
    pub fn session_slot(&self, a: SessionAction) -> (r: TwoSlot)
        ensures
            r == self.session(a),
    {
        match a {
            SessionAction::PagePrev => self.page_prev,
            SessionAction::PageNext => self.page_next,
            SessionAction::CandidatePrev => self.candidate_prev,
            SessionAction::CandidateNext => self.candidate_next,
            SessionAction::SwapLeft => self.swap_left,
            SessionAction::SwapRight => self.swap_right,
            SessionAction::HideCandidate => self.hide_candidate,
        }
    }

    /// The slots of a global action.
    pub fn global_slot(&self, a: GlobalAction) -> (r: TwoSlot)
        ensures
            r == self.global(a),
    {
        match a {
            GlobalAction::ToggleMode => self.toggle_mode,
            GlobalAction::ToggleWidth => self.toggle_width,
            GlobalAction::ToggleScript => self.toggle_script,
            GlobalAction::TogglePunct => self.toggle_punct,
            GlobalAction::OpenSettings => self.open_settings,
            GlobalAction::ToggleToolbar => self.toggle_toolbar,
        }
    }
}

/// The first of the session actions, in the order of the shortcut map, that a combination is
/// bound to.
pub open spec fn action_of(k: Keymap, c: Combo) -> Option<SessionAction> {
    if k.page_prev.holds(c) {
        Some(SessionAction::PagePrev)
    } else if k.page_next.holds(c) {
        Some(SessionAction::PageNext)
    } else if k.candidate_prev.holds(c) {
        Some(SessionAction::CandidatePrev)
    } else if k.candidate_next.holds(c) {
        Some(SessionAction::CandidateNext)
    } else if k.swap_left.holds(c) {
        Some(SessionAction::SwapLeft)
    } else if k.swap_right.holds(c) {
        Some(SessionAction::SwapRight)
    } else if k.hide_candidate.holds(c) {
        Some(SessionAction::HideCandidate)
    } else {
        None
    }
}

impl TwoSlot {
    /// Whether one of the two combinations is `c`.
    pub fn contains(&self, c: &Combo) -> (r: bool)
        ensures
            r == self.holds(*c),
    {
        slot_is(self.primary, *c) || slot_is(self.secondary, *c)
    }
}

impl Keymap {
    /// The session action that a combination is bound to.
    pub fn map(&self, c: &Combo) -> (r: Option<SessionAction>)
        ensures
            r == action_of(*self, *c),
    {
        if self.page_prev.contains(c) {
            Some(SessionAction::PagePrev)
        } else if self.page_next.contains(c) {
            Some(SessionAction::PageNext)
        } else if self.candidate_prev.contains(c) {
            Some(SessionAction::CandidatePrev)
        } else if self.candidate_next.contains(c) {
            Some(SessionAction::CandidateNext)
        } else if self.swap_left.contains(c) {
            Some(SessionAction::SwapLeft)
        } else if self.swap_right.contains(c) {
            Some(SessionAction::SwapRight)
        } else if self.hide_candidate.contains(c) {
            Some(SessionAction::HideCandidate)
        } else {
            None
        }
    }
}

/// Whether a slot holds the given combination.
pub fn slot_is(slot: Option<Combo>, c: Combo) -> (r: bool)
    ensures
        r == (slot == Some(c)),
{
    match slot {
        Some(x) => x == c,
        None => false,
    }
}

/// A combination that is bound to one action of a session only is that action, and one that is
/// bound to none is none. Of several actions that share it, it is one of them.
pub proof fn law_bound_combination_acts(k: Keymap, c: Combo, a: SessionAction)
    ensures
        action_of(k, c) matches Some(b) ==> k.session(b).holds(c),
        k.session(a).holds(c) ==> action_of(k, c) is Some,
        k.session(a).holds(c) && (forall|b: SessionAction|
            b != a ==> !(#[trigger] k.session(b)).holds(c)) ==> action_of(k, c) == Some(a),
        (forall|b: SessionAction| !(#[trigger] k.session(b)).holds(c)) ==> action_of(k, c) is None,
{
    assert(k.session(SessionAction::PagePrev) == k.page_prev);
    assert(k.session(SessionAction::PageNext) == k.page_next);
    assert(k.session(SessionAction::CandidatePrev) == k.candidate_prev);
    assert(k.session(SessionAction::CandidateNext) == k.candidate_next);
    assert(k.session(SessionAction::SwapLeft) == k.swap_left);
    assert(k.session(SessionAction::SwapRight) == k.swap_right);
    assert(k.session(SessionAction::HideCandidate) == k.hide_candidate);
}

/// Each action has slots of its own in the map, under its own name.
pub proof fn law_slots_by_name(k: Keymap)
    ensures
        k.session(SessionAction::PagePrev) == k.page_prev,
        k.session(SessionAction::PageNext) == k.page_next,
        k.session(SessionAction::CandidatePrev) == k.candidate_prev,
        k.session(SessionAction::CandidateNext) == k.candidate_next,
        k.session(SessionAction::SwapLeft) == k.swap_left,
        k.session(SessionAction::SwapRight) == k.swap_right,
        k.session(SessionAction::HideCandidate) == k.hide_candidate,
        k.global(GlobalAction::ToggleMode) == k.toggle_mode,
        k.global(GlobalAction::ToggleWidth) == k.toggle_width,
        k.global(GlobalAction::ToggleScript) == k.toggle_script,
        k.global(GlobalAction::TogglePunct) == k.toggle_punct,
        k.global(GlobalAction::OpenSettings) == k.open_settings,
        k.global(GlobalAction::ToggleToolbar) == k.toggle_toolbar,
        k.page_prev.primary matches Some(c) ==> k.page_prev.holds(c),
        k.page_prev.secondary matches Some(c) ==> k.page_prev.holds(c),
{
}

/// A pair of slots holds what stands in one of them, and nothing else.
pub proof fn law_slots_hold(pair: TwoSlot, c: Combo)
    ensures
        pair.primary == Some(c) ==> pair.holds(c),
        pair.secondary == Some(c) ==> pair.holds(c),
        pair.primary != Some(c) && pair.secondary != Some(c) ==> !pair.holds(c),
{
}

/// A combination counts as modified with any of the four keys held, and the letter space is the
/// plain letters of either case.
pub proof fn law_modified(c: Combo)
    ensures
        c.modified() <==> !(!c.ctrl && !c.alt && !c.shift && !c.win),
        c.on_letter() ==> c.base is Char && (0x41 <= c.base->Char_0 as u32 <= 0x5A || 0x61
            <= c.base->Char_0 as u32 <= 0x7A),
        c.base is Char && (0x41 <= c.base->Char_0 as u32 <= 0x5A || 0x61 <= c.base->Char_0 as u32
            <= 0x7A) ==> c.on_letter(),
{
}

/// An instance starts in Chinese, half width, simplified, with Chinese punctuation.
pub proof fn law_default_switches()
    ensures
        default_state().mode == InitialMode::Chinese,
        default_state().width == WidthMode::Half,
        default_state().script == ScriptMode::Simplified,
        default_state().punct == PunctMode::Chinese,
{
}

} // verus!
