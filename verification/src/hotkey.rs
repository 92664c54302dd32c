//! Global hotkeys: the numbers they are registered under, and which combinations are.

use vstd::prelude::*;

use crate::ime::{Combo, GlobalAction, Keymap, TwoSlot};

verus! {

/// The name of a global action.
pub open spec fn label_of(a: GlobalAction) -> Seq<char> {
    match a {
        GlobalAction::ToggleMode => "中英切换"@,
        GlobalAction::ToggleWidth => "全角/半角"@,
        GlobalAction::ToggleScript => "简体/繁体"@,
        GlobalAction::TogglePunct => "中文标点"@,
        GlobalAction::OpenSettings => "打开设置"@,
        GlobalAction::ToggleToolbar => "显示/隐藏工具栏"@,
    }
}

/// The name of a global action.
pub fn global_action_label(a: GlobalAction) -> (r: &'static str)
    ensures
        r@ == label_of(a),
        r@.len() > 0,
{
    proof {
        reveal_strlit("中英切换");
        reveal_strlit("全角/半角");
        reveal_strlit("简体/繁体");
        reveal_strlit("中文标点");
        reveal_strlit("打开设置");
        reveal_strlit("显示/隐藏工具栏");
    }
    match a {
        GlobalAction::ToggleMode => "中英切换",
        GlobalAction::ToggleWidth => "全角/半角",
        GlobalAction::ToggleScript => "简体/繁体",
        GlobalAction::TogglePunct => "中文标点",
        GlobalAction::OpenSettings => "打开设置",
        GlobalAction::ToggleToolbar => "显示/隐藏工具栏",
    }
}

/// The number of a global action.
pub open spec fn action_number(a: GlobalAction) -> int {
    match a {
        GlobalAction::ToggleMode => 0,
        GlobalAction::ToggleWidth => 1,
        GlobalAction::ToggleScript => 2,
        GlobalAction::TogglePunct => 3,
        GlobalAction::OpenSettings => 4,
        GlobalAction::ToggleToolbar => 5,
    }
}

/// The number of a hotkey: twice the action, plus one for the second slot.
pub open spec fn id_of(a: GlobalAction, secondary: bool) -> int {
    2 * action_number(a) + if secondary {
        1int
    } else {
        0int
    }
}

/// The number under which a slot of an action is registered.
pub fn hotkey_id(a: GlobalAction, secondary: bool) -> (r: i32)
    ensures
        r == id_of(a, secondary),
{
    let n: i32 = match a {
        GlobalAction::ToggleMode => 0,
        GlobalAction::ToggleWidth => 1,
        GlobalAction::ToggleScript => 2,
        GlobalAction::TogglePunct => 3,
        GlobalAction::OpenSettings => 4,
        GlobalAction::ToggleToolbar => 5,
    };
    if secondary {
        2 * n + 1
    } else {
        2 * n
    }
}

/// The action and slot of a number; `None` for a number that no hotkey has.
pub fn hotkey_from_id(id: usize) -> (r: Option<(GlobalAction, bool)>)
    ensures
        r is Some <==> id < 12,
        r matches Some((a, secondary)) ==> id_of(a, secondary) == id,
{
    let secondary: bool = id % 2 == 1;
    let a: GlobalAction = match id / 2 {
        0 => GlobalAction::ToggleMode,
        1 => GlobalAction::ToggleWidth,
        2 => GlobalAction::ToggleScript,
        3 => GlobalAction::TogglePunct,
        4 => GlobalAction::OpenSettings,
        5 => GlobalAction::ToggleToolbar,
        _ => return None,
    };
    Some((a, secondary))
}

/// Different slots have different numbers, so that a number leads back to the one slot that it
/// was made from; all numbers are below twelve.
pub proof fn law_hotkey_ids(a: GlobalAction, s: bool, b: GlobalAction, t: bool)
    ensures
        0 <= id_of(a, s) < 12,
        id_of(a, s) == id_of(b, t) ==> a == b && s == t,
{
}

/// A combination that is bound to a slot of a global action.
#[derive(Clone, Copy, Debug, PartialEq, Eq, Structural)]
pub struct Binding {
    pub action: GlobalAction,
    pub secondary: bool,
    pub combo: Combo,
}

/// The bindings of an action.
pub open spec fn bindings_of(a: GlobalAction, slot: TwoSlot) -> Seq<Binding> {
    let first = match slot.primary {
        Some(combo) => seq![Binding { action: a, secondary: false, combo }],
        None => Seq::empty(),
    };
    let second = match slot.secondary {
        Some(combo) => seq![Binding { action: a, secondary: true, combo }],
        None => Seq::empty(),
    };
    first + second
}

/// The global actions, in the order of their numbers.
pub open spec fn all_actions() -> Seq<GlobalAction> {
    seq![
        GlobalAction::ToggleMode,
        GlobalAction::ToggleWidth,
        GlobalAction::ToggleScript,
        GlobalAction::TogglePunct,
        GlobalAction::OpenSettings,
        GlobalAction::ToggleToolbar,
    ]
}

/// The bindings of the first `n` actions.
pub open spec fn bindings_upto(keymap: Keymap, n: nat) -> Seq<Binding>
    decreases n,
{
    if n == 0 {
        Seq::empty()
    } else {
        bindings_upto(keymap, (n - 1) as nat) + bindings_of(
            all_actions()[n - 1],
            keymap.global(all_actions()[n - 1]),
        )
    }
}

fn actions() -> (r: Vec<GlobalAction>)
    ensures
        r@ == all_actions(),
{
    let mut v: Vec<GlobalAction> = Vec::new();
    v.push(GlobalAction::ToggleMode);
    v.push(GlobalAction::ToggleWidth);
    v.push(GlobalAction::ToggleScript);
    v.push(GlobalAction::TogglePunct);
    v.push(GlobalAction::OpenSettings);
    v.push(GlobalAction::ToggleToolbar);
    assert(v@ =~= all_actions());
    v
}

/// Everything that is to be registered: for each action in turn, its first slot and then its
/// second, where they are taken.
pub fn register_all(keymap: &Keymap) -> (r: Vec<Binding>)
    ensures
        r@ == bindings_upto(*keymap, 6),
{
    let list: Vec<GlobalAction> = actions();
    let mut out: Vec<Binding> = Vec::new();
    let mut i: usize = 0;
    while i < list.len()
        invariant
            i <= list@.len(),
            list@ == all_actions(),
            out@ == bindings_upto(*keymap, i as nat),
        decreases list@.len() - i,
    {
        let ghost before = out@;
        let a: GlobalAction = list[i];
        let slot: TwoSlot = keymap.global_slot(a);
        if let Some(combo) = slot.primary {
            out.push(Binding { action: a, secondary: false, combo });
        }
        if let Some(combo) = slot.secondary {
            out.push(Binding { action: a, secondary: true, combo });
        }
        assert(out@ =~= before + bindings_of(a, slot));
        i = i + 1;
    }
    out
}

/// What is handed to the system to register a hotkey.
#[derive(Clone, Copy, Debug, PartialEq, Eq, Structural)]
pub struct Registration {
    pub id: i32,
    pub vk: u16,
    pub combo: Combo,
}

/// The registration of a binding. `vk` is the virtual key of its base key. A combination
/// without a virtual key, or without a modifier, is not registered.
pub fn register_one(b: &Binding, vk: Option<u16>) -> (r: Option<Registration>)
    ensures
        r is Some <==> vk is Some && b.combo.modified(),
        r matches Some(reg) ==> reg.id == id_of(b.action, b.secondary) && Some(reg.vk) == vk
            && reg.combo == b.combo,
{
    match vk {
        Some(code) => if b.combo.has_modifier() {
            Some(
                Registration { id: hotkey_id(b.action, b.secondary), vk: code, combo: b.combo },
            )
        } else {
            None
        },
        None => None,
    }
}

/// How many of the outcomes are good.
pub open spec fn good(outcomes: Seq<bool>) -> nat
    decreases outcomes.len(),
{
    if outcomes.len() == 0 {
        0
    } else {
        good(outcomes.drop_last()) + if outcomes.last() {
            1nat
        } else {
            0nat
        }
    }
}

/// How many registrations succeeded and how many did not.
pub fn tally(outcomes: &Vec<bool>) -> (r: (usize, usize))
    ensures
        r.0 == good(outcomes@),
        r.0 + r.1 == outcomes@.len(),
{
    let mut ok: usize = 0;
    let mut i: usize = 0;
    while i < outcomes.len()
        invariant
            i <= outcomes@.len(),
            ok == good(outcomes@.take(i as int)),
            ok <= i,
        decreases outcomes@.len() - i,
    {
        assert(outcomes@.take(i + 1).drop_last() =~= outcomes@.take(i as int));
        if outcomes[i] {
            ok = ok + 1;
        }
        i = i + 1;
    }
    assert(outcomes@.take(i as int) =~= outcomes@);
    (ok, outcomes.len() - ok)
}

/// The numbers that are unregistered before the hotkeys are registered anew: those of both
/// slots of every action.
pub fn unregister_all() -> (r: Vec<i32>)
    ensures
        r@ == Seq::new(12, |i: int| i as i32),
{
    let mut out: Vec<i32> = Vec::new();
    let mut i: i32 = 0;
    while i < 12
        invariant
            0 <= i <= 12,
            out@ == Seq::new(i as nat, |k: int| k as i32),
        decreases 12 - i,
    {
        out.push(i);
        assert(out@ =~= Seq::new((i + 1) as nat, |k: int| k as i32));
        i = i + 1;
    }
    out
}

/// What is registered is what the map binds: for every global action and either slot, a
/// combination that stands there is registered for that action and slot, and nothing else is.
pub proof fn law_bound_hotkeys_registered(k: Keymap, b: Binding)
    ensures
        bindings_upto(k, 6).contains(b) <==> (if b.secondary {
            k.global(b.action).secondary
        } else {
            k.global(b.action).primary
        }) == Some(b.combo),
{
    every_binding(k, 6, b);
    let n = action_number(b.action);
    assert(all_actions()[n] == b.action);
}

proof fn every_binding(k: Keymap, n: nat, b: Binding)
    requires
        n <= 6,
    ensures
        bindings_upto(k, n).contains(b) <==> action_number(b.action) < n && (if b.secondary {
            k.global(b.action).secondary
        } else {
            k.global(b.action).primary
        }) == Some(b.combo),
    decreases n,
{
    if n > 0 {
        every_binding(k, (n - 1) as nat, b);
        let before = bindings_upto(k, (n - 1) as nat);
        let a = all_actions()[n - 1];
        let new = bindings_of(a, k.global(a));
        let all = bindings_upto(k, n);
        assert(all == before + new);
        assert(action_number(a) == n - 1);
        if before.contains(b) {
            let i = choose|i: int| 0 <= i < before.len() && before[i] == b;
            assert(all[i] == b);
        }
        if new.contains(b) {
            let i = choose|i: int| 0 <= i < new.len() && new[i] == b;
            assert(all[before.len() + i] == b);
        }
        if all.contains(b) {
            let i = choose|i: int| 0 <= i < all.len() && all[i] == b;
            if i < before.len() {
                assert(before[i] == b);
            } else {
                assert(new[i - before.len()] == b);
            }
        }
        if a == b.action {
            if b.secondary && k.global(a).secondary == Some(b.combo) {
                assert(new.last() == b);
            }
            if !b.secondary && k.global(a).primary == Some(b.combo) {
                assert(new[0] == b);
            }
        }
    }
}

/// The outcomes that went well are counted: all of them where all did, none where none did, and
/// one more with each that does.
pub proof fn law_outcomes_counted(outcomes: Seq<bool>, last: bool)
    ensures
        good(outcomes) <= outcomes.len(),
        good(outcomes.push(last)) == good(outcomes) + if last {
            1nat
        } else {
            0nat
        },
        (forall|i: int| 0 <= i < outcomes.len() ==> outcomes[i]) ==> good(outcomes)
            == outcomes.len(),
        (forall|i: int| 0 <= i < outcomes.len() ==> !outcomes[i]) ==> good(outcomes) == 0,
    decreases outcomes.len(),
{
    assert(outcomes.push(last).drop_last() =~= outcomes);
    if outcomes.len() > 0 {
        law_outcomes_counted(outcomes.drop_last(), outcomes.last());
    }
}

/// The six actions have six names, one each.
pub proof fn law_action_names(a: GlobalAction, b: GlobalAction)
    ensures
        all_actions().contains(a),
        all_actions().no_duplicates(),
        all_actions()[action_number(a)] == a,
        label_of(a) == label_of(b) ==> a == b,
{
    assert(all_actions()[action_number(a)] == a);
    reveal_strlit("中英切换");
    reveal_strlit("全角/半角");
    reveal_strlit("简体/繁体");
    reveal_strlit("中文标点");
    reveal_strlit("打开设置");
    reveal_strlit("显示/隐藏工具栏");
    let (m, w, s) = ("中英切换"@, "全角/半角"@, "简体/繁体"@);
    let (p, o, t) = ("中文标点"@, "打开设置"@, "显示/隐藏工具栏"@);
    assert(m.len() == 4 && w.len() == 5 && s.len() == 5 && p.len() == 4 && o.len() == 4 && t.len()
        == 8);
    assert(w[0] != s[0]);
    assert(m[1] != p[1]);
    assert(m[0] != o[0]);
    assert(p[0] != o[0]);
}

/// Each hotkey is called by what it does.
pub proof fn law_action_captions()
    ensures
        label_of(GlobalAction::ToggleMode) == "中英切换"@,
        label_of(GlobalAction::ToggleWidth) == "全角/半角"@,
        label_of(GlobalAction::ToggleScript) == "简体/繁体"@,
        label_of(GlobalAction::TogglePunct) == "中文标点"@,
        label_of(GlobalAction::OpenSettings) == "打开设置"@,
        label_of(GlobalAction::ToggleToolbar) == "显示/隐藏工具栏"@,
{
}

/// The two numbers of an action follow each other, that of the first slot even; half of either is
/// the action's place in the list.
pub proof fn law_numbers_by_place(a: GlobalAction, secondary: bool)
    ensures
        id_of(a, false) % 2 == 0,
        id_of(a, true) == id_of(a, false) + 1,
        all_actions()[id_of(a, secondary) / 2] == a,
{
}

} // verus!
