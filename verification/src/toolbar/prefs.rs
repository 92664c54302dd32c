//! What the toolbar remembers between runs: whether it shows, and where.

use vstd::prelude::*;

verus! {

/// The remembered preferences.
#[derive(Clone, Copy, Debug, PartialEq, Eq)]
pub struct ToolbarPref {
    pub visible: bool,
    pub pos: Option<(i32, i32)>,
}

/// Whether the toolbar shows where nothing was remembered.
pub fn default_visible() -> (r: bool)
    ensures
        r,
{
    true
}

/// Below this coordinate no screen begins.
pub const LEAST_POS: i32 = -10000;

/// Beyond this coordinate no screen reaches.
pub const GREATEST_POS: i32 = 40000;

/// Where a window that was dragged out of all screens ended up.
pub const OFF_SCREEN_POS: i32 = 32767;

/// Whether a coordinate can belong to a screen.
pub open spec fn plausible(v: int) -> bool {
    LEAST_POS <= v <= GREATEST_POS && v != OFF_SCREEN_POS
}

/// What is made of the stored preferences: a place that no screen can have is dropped; where
/// nothing usable was stored, the toolbar shows and has no place yet.
pub open spec fn sanitised(stored: Option<ToolbarPref>) -> ToolbarPref {
    match stored {
        Some(p) => ToolbarPref {
            visible: p.visible,
            pos: match p.pos {
                Some((x, y)) => if plausible(x as int) && plausible(y as int) {
                    p.pos
                } else {
                    None
                },
                None => None,
            },
        },
        None => ToolbarPref { visible: true, pos: None },
    }
}

fn is_plausible(v: i32) -> (r: bool)
    ensures
        r == plausible(v as int),
{
    LEAST_POS <= v && v <= GREATEST_POS && v != OFF_SCREEN_POS
}

/// The preferences to start with, from those that were stored.
pub fn load_pref(stored: Option<ToolbarPref>) -> (r: ToolbarPref)
    ensures
        r == sanitised(stored),
{
    match stored {
        Some(p) => match p.pos {
            Some((x, y)) => if is_plausible(x) && is_plausible(y) {
                p
            } else {
                ToolbarPref { visible: p.visible, pos: None }
            },
            None => p,
        },
        None => ToolbarPref { visible: default_visible(), pos: None },
    }
}

/// Loading what loading made changes nothing.
pub proof fn law_loading_is_stable(stored: Option<ToolbarPref>)
    ensures
        sanitised(Some(sanitised(stored))) == sanitised(stored),
{
}

/// What was stored is taken over; a place that no screen has is forgotten, both coordinates
/// together. Nothing stored means shown, at no place of its own.
pub proof fn law_pref_taken_over(visible: bool, x: i32, y: i32)
    ensures
        sanitised(None).visible,
        sanitised(None).pos is None,
        sanitised(Some(ToolbarPref { visible, pos: None })) == (ToolbarPref { visible, pos: None }),
        ({
            let p = sanitised(Some(ToolbarPref { visible, pos: Some((x, y)) }));
            &&& p.visible == visible
            &&& -10000 <= x <= 40000 && x != 32767 && -10000 <= y <= 40000 && y != 32767 <==> p.pos
                == Some((x, y))
            &&& p.pos is None || p.pos == Some((x, y))
        }),
{
}

} // verus!
