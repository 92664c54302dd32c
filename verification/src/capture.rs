//! Recording a key combination: the next one that is pressed, with any modifiers.

use vstd::prelude::*;

use crate::ime::{Combo, Key};

verus! {

/// How a recording ended.
#[derive(Clone, Copy, Debug, PartialEq, Eq, Structural)]
pub enum CaptureOutcome {
    /// A combination was pressed.
    Captured(Combo),
    /// A combination was pressed that cannot be used.
    Rejected(Combo),
    /// The slot is to be emptied.
    Clear,
    /// The slot is to stay as it is.
    Cancel,
}

/// A recording.
#[derive(Clone, Copy, Debug, PartialEq, Eq, Structural)]
pub struct CaptureState {
    pub outcome: Option<CaptureOutcome>,
    pub request_repaint: bool,
    /// Whether the keyboard is being listened to.
    pub installed: bool,
}

impl Default for CaptureState {
    fn default() -> (r: CaptureState)
        ensures
            r == (CaptureState { outcome: None, request_repaint: false, installed: false }),
    {
        CaptureState { outcome: None, request_repaint: false, installed: false }
    }
}

impl CaptureState {
    /// The recording once it has ended with an outcome.
    pub open spec fn ended(self, o: CaptureOutcome) -> CaptureState {
        CaptureState { outcome: Some(o), request_repaint: true, installed: false }
    }
}

/// Begins a recording, in place of one that may still run. `hooked` tells whether the keyboard
/// can be listened to; where it cannot, there is no recording. Says whether there is one.
pub fn begin(slot: &mut Option<CaptureState>, hooked: bool) -> (r: bool)
    ensures
        r == hooked,
        *final(slot) == if hooked {
            Some(CaptureState { outcome: None, request_repaint: false, installed: true })
        } else {
            None::<CaptureState>
        },
{
    if hooked {
        *slot = Some(CaptureState { outcome: None, request_repaint: false, installed: true });
    } else {
        *slot = None;
    }
    hooked
}

/// Ends a recording: the keyboard is listened to no longer, and the outcome stays.
pub fn end(slot: &mut Option<CaptureState>)
    ensures
        *final(slot) == match *old(slot) {
            Some(s) => Some(CaptureState { installed: false, ..s }),
            None => None,
        },
{
    if let Some(s) = *slot {
        *slot = Some(CaptureState { installed: false, ..s });
    }
}

/// A key event. `flags` are those of the keyboard hook; `base` is the key that the virtual key
/// stands for, where it stands for one.
#[derive(Clone, Copy, Debug)]
pub struct KeyPress {
    pub vk: u32,
    pub flags: u32,
    pub ctrl: bool,
    pub shift: bool,
    pub win: bool,
    pub base: Option<Key>,
}

impl KeyPress {
    /// Whether the key was let go.
    pub open spec fn is_up(self) -> bool {
        (self.flags / 128) % 2 == 1
    }

    /// Whether Alt is held.
    pub open spec fn alt(self) -> bool {
        (self.flags / 32) % 2 == 1
    }

    /// Whether the key is a modifier.
    pub open spec fn is_modifier(self) -> bool {
        self.vk == 0x10 || self.vk == 0x11 || self.vk == 0x12 || self.vk == 0x5B || self.vk == 0x5C
    }

    /// The combination, with the base key `base`.
    pub open spec fn combo(self, base: Key) -> Combo {
        Combo { ctrl: self.ctrl, alt: self.alt(), shift: self.shift, win: self.win, base }
    }

    /// What the key ends a recording with; `None` where the recording goes on. A letter without
    /// a modifier is not taken: it is needed for typing.
    pub open spec fn outcome(self) -> Option<CaptureOutcome> {
        if self.vk == 0x1B {
            Some(CaptureOutcome::Cancel)
        } else if self.vk == 0x08 {
            Some(CaptureOutcome::Clear)
        } else if self.is_modifier() {
            None
        } else {
            match self.base {
                None => None,
                Some(base) => if self.combo(base).modified() || !self.combo(base).on_letter() {
                    Some(CaptureOutcome::Captured(self.combo(base)))
                } else {
                    None
                },
            }
        }
    }
}

/// What becomes of a key event.
#[derive(Clone, Copy, Debug, PartialEq, Eq, Structural)]
pub enum HookReply {
    /// It goes on its way.
    PassOn,
    /// It is swallowed.
    Swallow,
}

/// The keyboard hook. A key that is pressed while a recording runs is swallowed, and ends the
/// recording or leaves it waiting; everything else goes on its way.
pub fn hook_proc(slot: &mut Option<CaptureState>, code: i32, key: &KeyPress) -> (r: HookReply)
    ensures
        match *old(slot) {
            Some(s) => if code >= 0 && s.installed && !key.is_up() {
                &&& r == HookReply::Swallow
                &&& *final(slot) == (match key.outcome() {
                    Some(o) => Some(s.ended(o)),
                    None => *old(slot),
                })
            } else {
                r == HookReply::PassOn && *final(slot) == *old(slot)
            },
            None => r == HookReply::PassOn && *final(slot) == *old(slot),
        },
{
    let mut s: CaptureState = match *slot {
        Some(s) => s,
        None => return HookReply::PassOn,
    };
    if code < 0 || !s.installed {
        return HookReply::PassOn;
    }
    let flags: u32 = key.flags;
    assert((flags & 128 != 0) == ((flags / 128) % 2 == 1)) by (bit_vector);
    assert((flags & 32 != 0) == ((flags / 32) % 2 == 1)) by (bit_vector);
    if flags & 128 != 0 {
        return HookReply::PassOn;
    }
    let alt: bool = flags & 32 != 0;
    let vk: u32 = key.vk;
    let outcome: Option<CaptureOutcome> = if vk == 0x1B {
        Some(CaptureOutcome::Cancel)
    } else if vk == 0x08 {
        Some(CaptureOutcome::Clear)
    } else if vk == 0x10 || vk == 0x11 || vk == 0x12 || vk == 0x5B || vk == 0x5C {
        None
    } else {
        match key.base {
            None => None,
            Some(base) => {
                let combo = Combo { ctrl: key.ctrl, alt, shift: key.shift, win: key.win, base };
                if combo.has_modifier() || !combo.base_is_letter() {
                    Some(CaptureOutcome::Captured(combo))
                } else {
                    None
                }
            },
        }
    };
    if let Some(o) = outcome {
        s.outcome = Some(o);
        s.request_repaint = true;
        *slot = Some(s);
        end(slot);
    }
    HookReply::Swallow
}

/// A recording never takes a letter without a modifier, nor a modifier alone.
pub proof fn law_captured_combos_usable(key: KeyPress, c: Combo)
    requires
        key.outcome() == Some(CaptureOutcome::Captured(c)),
    ensures
        c.modified() || !c.on_letter(),
        !key.is_modifier(),
        key.base == Some(c.base),
{
}

/// What a key comes to while a combination is recorded, whatever else is held: Escape gives up,
/// Backspace empties the slot, a key that only modifies and one without a name are waited past. A
/// plain letter is too, as it is the input of words; any other key is taken with all that is held
/// with it.
pub proof fn law_keys_while_recording(key: KeyPress)
    ensures
        key.outcome() == Some(CaptureOutcome::Cancel) <==> key.vk == 0x1B,
        key.outcome() == Some(CaptureOutcome::Clear) <==> key.vk == 0x08,
        !(key.outcome() matches Some(CaptureOutcome::Rejected(_))),
        ({
            let waits = key.vk == 0x10 || key.vk == 0x11 || key.vk == 0x12 || key.vk == 0x5B
                || key.vk == 0x5C || key.base is None;
            &&& key.vk != 0x1B && key.vk != 0x08 && waits ==> key.outcome() is None
            &&& key.vk != 0x1B && key.vk != 0x08 && !waits ==> {
                let held = key.ctrl || key.shift || key.win || key.alt();
                let letter = key.base->0 is Char && crate::ime::is_letter(key.base->0->Char_0);
                &&& letter && !held ==> key.outcome() is None
                &&& !letter || held ==> (key.outcome() matches Some(CaptureOutcome::Captured(c))
                    && c.base == key.base->0 && c.ctrl == key.ctrl && c.shift == key.shift && c.win
                    == key.win && c.alt == key.alt())
            }
        }),
{
}

/// A recording that ends tells how, asks for the window to be drawn, and lets the keys go.
pub proof fn law_recording_ends(s: CaptureState, o: CaptureOutcome)
    ensures
        s.ended(o).outcome == Some(o),
        s.ended(o).request_repaint,
        !s.ended(o).installed,
{
}

/// The flags of a key tell by one bit each whether it goes up and whether Alt is held.
pub proof fn law_key_flags(key: KeyPress)
    ensures
        key.flags == 0x80 ==> key.is_up() && !key.alt(),
        key.flags == 0x20 ==> !key.is_up() && key.alt(),
        key.flags == 0xA0 ==> key.is_up() && key.alt(),
        key.flags < 0x20 ==> !key.is_up() && !key.alt(),
        key.is_up() == ((key.flags & 0x80) != 0),
        key.alt() == ((key.flags & 0x20) != 0),
{
    let f = key.flags;
    assert(((f / 128) % 2 == 1) == ((f & 0x80) != 0)) by (bit_vector);
    assert(((f / 32) % 2 == 1) == ((f & 0x20) != 0)) by (bit_vector);
}

} // verus!
