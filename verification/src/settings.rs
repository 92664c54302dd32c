//! The settings window: its tabs, the form that it fills, recording shortcuts, and saving.

use vstd::prelude::*;

use crate::capture::CaptureOutcome;
use crate::config::{
    DaemonConfig, DEFAULT_CANDIDATE_OWNER_APPS, DEFAULT_PASSTHROUGH_APPS,
};
use crate::hotkey;
use crate::hotkey::global_action_label;
use crate::ime::{Combo, GlobalAction, ImeState, Keymap, SessionAction, TwoSlot};
use crate::text;
use crate::text::{
    contains_text, copy_list, entries_of, join2, join3, join_list, same_text, to_decimal,
};

verus! {

/// A tab of the window.
#[derive(Clone, Copy, Debug, PartialEq, Eq, Structural)]
pub enum Tab {
    Common,
    Keymap,
    Appearance,
    Dict,
    Advanced,
    Dev,
}

impl Tab {
    /// What stands on the tab.
    pub open spec fn caption(self) -> Seq<char> {
        match self {
            Tab::Common => "常用"@,
            Tab::Keymap => "按键"@,
            Tab::Appearance => "外观"@,
            Tab::Dict => "词库"@,
            Tab::Advanced => "高级"@,
            Tab::Dev => "开发者"@,
        }
    }

    /// What stands on the tab.
    pub fn title(self) -> (r: &'static str)
        ensures
            r@ == self.caption(),
    {
        match self {
            Tab::Common => "常用",
            Tab::Keymap => "按键",
            Tab::Appearance => "外观",
            Tab::Dict => "词库",
            Tab::Advanced => "高级",
            Tab::Dev => "开发者",
        }
    }
}

/// The tabs in their order; the one for developers only in a developer's build.
pub fn tabs(dev: bool) -> (r: Vec<Tab>)
    ensures
        r@ == seq![Tab::Common, Tab::Keymap, Tab::Appearance, Tab::Dict, Tab::Advanced] + if dev {
            seq![Tab::Dev]
        } else {
            Seq::empty()
        },
{
    let mut v: Vec<Tab> = Vec::new();
    v.push(Tab::Common);
    v.push(Tab::Keymap);
    v.push(Tab::Appearance);
    v.push(Tab::Dict);
    v.push(Tab::Advanced);
    if dev {
        v.push(Tab::Dev);
    }
    assert(v@ =~= seq![Tab::Common, Tab::Keymap, Tab::Appearance, Tab::Dict, Tab::Advanced] + if dev {
        seq![Tab::Dev]
    } else {
        Seq::empty()
    });
    v
}

/// The log modules that can be switched off: their tags, and what they log.
pub const LOG_MODULES: [(&'static str, &'static str); 12] = [
    ("uielem", "TSF 候选 UIElement 桥（最高频）"),
    ("key", "TSF 按键记录（每键一行）"),
    ("commit", "上屏记录"),
    ("caret", "光标量取"),
    ("candwin", "候选窗窗口层"),
    ("menuwin", "语言栏右键菜单"),
    ("punct", "中文标点直接上屏"),
    ("daemon", "TSF 侧 daemon_client"),
    ("main", "守护进程主循环"),
    ("pipe", "守护进程管道"),
    ("settings", "守护进程设置页"),
    ("state", "守护进程状态"),
];

/// One of the two slots of an action.
#[derive(Clone, Copy, Debug, PartialEq, Eq, Structural)]
pub enum Slot {
    Primary,
    Secondary,
}

impl Slot {
    /// The name of the slot.
    pub open spec fn caption(self) -> Seq<char> {
        match self {
            Slot::Primary => "主"@,
            Slot::Secondary => "备"@,
        }
    }

    /// The name of the slot.
    pub fn name(self) -> (r: &'static str)
        ensures
            r@ == self.caption(),
    {
        match self {
            Slot::Primary => "主",
            Slot::Secondary => "备",
        }
    }
}

/// The slot that a combination is recorded for.
#[derive(Clone, Copy, Debug, PartialEq, Eq, Structural)]
pub enum CaptureTarget {
    Session(SessionAction, Slot),
    Global(GlobalAction, Slot),
}

/// What a slot pair holds in one of its slots.
pub open spec fn slot_of(pair: TwoSlot, which: Slot) -> Option<Combo> {
    match which {
        Slot::Primary => pair.primary,
        Slot::Secondary => pair.secondary,
    }
}

/// A slot pair with one of its slots replaced.
pub open spec fn with_slot(pair: TwoSlot, which: Slot, c: Option<Combo>) -> TwoSlot {
    match which {
        Slot::Primary => TwoSlot { primary: c, ..pair },
        Slot::Secondary => TwoSlot { secondary: c, ..pair },
    }
}

fn set_in(pair: &mut TwoSlot, which: Slot, c: Option<Combo>)
    ensures
        *final(pair) == with_slot(*old(pair), which, c),
{
    match which {
        Slot::Primary => {
            pair.primary = c;
        },
        Slot::Secondary => {
            pair.secondary = c;
        },
    }
}

/// The combination that a target holds.
pub open spec fn at_target(k: Keymap, t: CaptureTarget) -> Option<Combo> {
    match t {
        CaptureTarget::Session(a, which) => slot_of(k.session(a), which),
        CaptureTarget::Global(a, which) => slot_of(k.global(a), which),
    }
}

/// The shortcuts with a target replaced.
pub open spec fn with_target(k: Keymap, t: CaptureTarget, c: Option<Combo>) -> Keymap {
    match t {
        CaptureTarget::Session(a, which) => {
            let pair = with_slot(k.session(a), which, c);
            match a {
                SessionAction::PagePrev => Keymap { page_prev: pair, ..k },
                SessionAction::PageNext => Keymap { page_next: pair, ..k },
                SessionAction::CandidatePrev => Keymap { candidate_prev: pair, ..k },
                SessionAction::CandidateNext => Keymap { candidate_next: pair, ..k },
                SessionAction::SwapLeft => Keymap { swap_left: pair, ..k },
                SessionAction::SwapRight => Keymap { swap_right: pair, ..k },
                SessionAction::HideCandidate => Keymap { hide_candidate: pair, ..k },
            }
        },
        CaptureTarget::Global(a, which) => {
            let pair = with_slot(k.global(a), which, c);
            match a {
                GlobalAction::ToggleMode => Keymap { toggle_mode: pair, ..k },
                GlobalAction::ToggleWidth => Keymap { toggle_width: pair, ..k },
                GlobalAction::ToggleScript => Keymap { toggle_script: pair, ..k },
                GlobalAction::TogglePunct => Keymap { toggle_punct: pair, ..k },
                GlobalAction::OpenSettings => Keymap { open_settings: pair, ..k },
                GlobalAction::ToggleToolbar => Keymap { toggle_toolbar: pair, ..k },
            }
        },
    }
}

/// Replaces the combination of a target.
pub fn set_target(k: &mut Keymap, t: CaptureTarget, c: Option<Combo>)
    ensures
        *final(k) == with_target(*old(k), t, c),
{
    match t {
        CaptureTarget::Session(a, which) => match a {
            SessionAction::PagePrev => set_in(&mut k.page_prev, which, c),
            SessionAction::PageNext => set_in(&mut k.page_next, which, c),
            SessionAction::CandidatePrev => set_in(&mut k.candidate_prev, which, c),
            SessionAction::CandidateNext => set_in(&mut k.candidate_next, which, c),
            SessionAction::SwapLeft => set_in(&mut k.swap_left, which, c),
            SessionAction::SwapRight => set_in(&mut k.swap_right, which, c),
            SessionAction::HideCandidate => set_in(&mut k.hide_candidate, which, c),
        },
        CaptureTarget::Global(a, which) => match a {
            GlobalAction::ToggleMode => set_in(&mut k.toggle_mode, which, c),
            GlobalAction::ToggleWidth => set_in(&mut k.toggle_width, which, c),
            GlobalAction::ToggleScript => set_in(&mut k.toggle_script, which, c),
            GlobalAction::TogglePunct => set_in(&mut k.toggle_punct, which, c),
            GlobalAction::OpenSettings => set_in(&mut k.open_settings, which, c),
            GlobalAction::ToggleToolbar => set_in(&mut k.toggle_toolbar, which, c),
        },
    }
}

/// Replacing a target changes what it holds, and nothing else.
pub proof fn law_set_target(k: Keymap, t: CaptureTarget, c: Option<Combo>, other: CaptureTarget)
    ensures
        at_target(with_target(k, t, c), t) == c,
        other != t ==> at_target(with_target(k, t, c), other) == at_target(k, other),
{
}

/// Reads the combination of a target.
pub fn target_combo(k: &Keymap, t: CaptureTarget) -> (r: Option<Combo>)
    ensures
        r == at_target(*k, t),
{
    match t {
        CaptureTarget::Session(a, Slot::Primary) => k.session_slot(a).primary,
        CaptureTarget::Session(a, Slot::Secondary) => k.session_slot(a).secondary,
        CaptureTarget::Global(a, Slot::Primary) => k.global_slot(a).primary,
        CaptureTarget::Global(a, Slot::Secondary) => k.global_slot(a).secondary,
    }
}

/// The name of a session action.
pub open spec fn session_caption(a: SessionAction) -> Seq<char> {
    match a {
        SessionAction::PagePrev => "翻上一页"@,
        SessionAction::PageNext => "翻下一页"@,
        SessionAction::CandidatePrev => "候选前移"@,
        SessionAction::CandidateNext => "候选后移"@,
        SessionAction::SwapLeft => "调权（与左侧候选交换）"@,
        SessionAction::SwapRight => "调权（与右侧候选交换）"@,
        SessionAction::HideCandidate => "隐藏候选"@,
    }
}

/// The name of a session action.
pub fn session_label(a: SessionAction) -> (r: &'static str)
    ensures
        r@ == session_caption(a),
{
    match a {
        SessionAction::PagePrev => "翻上一页",
        SessionAction::PageNext => "翻下一页",
        SessionAction::CandidatePrev => "候选前移",
        SessionAction::CandidateNext => "候选后移",
        SessionAction::SwapLeft => "调权（与左侧候选交换）",
        SessionAction::SwapRight => "调权（与右侧候选交换）",
        SessionAction::HideCandidate => "隐藏候选",
    }
}

/// The session actions in the order of the window.
pub open spec fn session_order() -> Seq<SessionAction> {
    seq![
        SessionAction::PagePrev,
        SessionAction::PageNext,
        SessionAction::CandidatePrev,
        SessionAction::CandidateNext,
        SessionAction::SwapLeft,
        SessionAction::SwapRight,
        SessionAction::HideCandidate,
    ]
}

/// The session actions in the order of the window.
pub fn session_actions() -> (r: Vec<SessionAction>)
    ensures
        r@ == session_order(),
{
    let mut v: Vec<SessionAction> = Vec::new();
    v.push(SessionAction::PagePrev);
    v.push(SessionAction::PageNext);
    v.push(SessionAction::CandidatePrev);
    v.push(SessionAction::CandidateNext);
    v.push(SessionAction::SwapLeft);
    v.push(SessionAction::SwapRight);
    v.push(SessionAction::HideCandidate);
    assert(v@ =~= session_order());
    v
}

/// The global actions in the order of the window.
pub fn global_actions() -> (r: Vec<GlobalAction>)
    ensures
        r@ == hotkey::all_actions(),
{
    let mut v: Vec<GlobalAction> = Vec::new();
    v.push(GlobalAction::ToggleMode);
    v.push(GlobalAction::ToggleWidth);
    v.push(GlobalAction::ToggleScript);
    v.push(GlobalAction::TogglePunct);
    v.push(GlobalAction::OpenSettings);
    v.push(GlobalAction::ToggleToolbar);
    assert(v@ =~= hotkey::all_actions());
    v
}

/// The name of the action that a target belongs to.
pub open spec fn target_caption(t: CaptureTarget) -> Seq<char> {
    match t {
        CaptureTarget::Session(a, _) => session_caption(a),
        CaptureTarget::Global(a, _) => hotkey::label_of(a),
    }
}

/// The name of the action that a target belongs to.
pub fn target_label(t: CaptureTarget) -> (r: &'static str)
    ensures
        r@ == target_caption(t),
{
    match t {
        CaptureTarget::Session(a, _) => session_label(a),
        CaptureTarget::Global(a, _) => global_action_label(a),
    }
}

/// Whether a slot other than `t` holds a combination.
pub open spec fn held_at(k: Keymap, c: Combo, t: CaptureTarget, u: CaptureTarget) -> bool {
    u != t && at_target(k, u) == Some(c)
}

/// Whether a session action holds a combination in a slot other than `t`.
pub open spec fn session_holds(k: Keymap, c: Combo, t: CaptureTarget, a: SessionAction) -> bool {
    held_at(k, c, t, CaptureTarget::Session(a, Slot::Primary)) || held_at(
        k,
        c,
        t,
        CaptureTarget::Session(a, Slot::Secondary),
    )
}

/// Whether a global action holds a combination in a slot other than `t`.
pub open spec fn global_holds(k: Keymap, c: Combo, t: CaptureTarget, a: GlobalAction) -> bool {
    held_at(k, c, t, CaptureTarget::Global(a, Slot::Primary)) || held_at(
        k,
        c,
        t,
        CaptureTarget::Global(a, Slot::Secondary),
    )
}

/// The name of the first of the session actions, from the given one on, that holds a combination
/// in a slot other than `t`.
pub open spec fn session_holder(k: Keymap, c: Combo, t: CaptureTarget, from: int) -> Option<
    Seq<char>,
>
    decreases 7 - from,
{
    if from < 0 || from >= 7 {
        None
    } else if session_holds(k, c, t, session_order()[from]) {
        Some(session_caption(session_order()[from]))
    } else {
        session_holder(k, c, t, from + 1)
    }
}

/// The name of the first of the global actions, from the given one on, that holds a combination
/// in a slot other than `t`.
pub open spec fn global_holder(k: Keymap, c: Combo, t: CaptureTarget, from: int) -> Option<
    Seq<char>,
>
    decreases 6 - from,
{
    if from < 0 || from >= 6 {
        None
    } else if global_holds(k, c, t, hotkey::all_actions()[from]) {
        Some(hotkey::label_of(hotkey::all_actions()[from]))
    } else {
        global_holder(k, c, t, from + 1)
    }
}

/// The name of the action that holds a combination already: session actions first, in the order
/// of the window. The target's own slot is about to be replaced and does not count; every other
/// slot does.
pub open spec fn conflict(k: Keymap, c: Combo, t: CaptureTarget) -> Option<Seq<char>> {
    match session_holder(k, c, t, 0) {
        Some(label) => Some(label),
        None => global_holder(k, c, t, 0),
    }
}

/// Whether no slot other than the target holds a combination.
pub open spec fn free_but_for(k: Keymap, c: Combo, t: CaptureTarget) -> bool {
    forall|u: CaptureTarget| u != t ==> #[trigger] at_target(k, u) != Some(c)
}

proof fn lemma_session_holder(k: Keymap, c: Combo, t: CaptureTarget, from: int)
    requires
        0 <= from <= 7,
    ensures
        session_holder(k, c, t, from) is None <==> forall|i: int|
            from <= i < 7 ==> !session_holds(k, c, t, #[trigger] session_order()[i]),
    decreases 7 - from,
{
    if from < 7 {
        lemma_session_holder(k, c, t, from + 1);
        let first = session_order()[from];
        if session_holder(k, c, t, from) is None {
            assert forall|i: int| from <= i < 7 implies !session_holds(
                k,
                c,
                t,
                #[trigger] session_order()[i],
            ) by {
                if i == from {
                    assert(!session_holds(k, c, t, first));
                }
            }
        }
    }
}

proof fn lemma_global_holder(k: Keymap, c: Combo, t: CaptureTarget, from: int)
    requires
        0 <= from <= 6,
    ensures
        global_holder(k, c, t, from) is None <==> forall|i: int|
            from <= i < 6 ==> !global_holds(k, c, t, #[trigger] hotkey::all_actions()[i]),
    decreases 6 - from,
{
    if from < 6 {
        lemma_global_holder(k, c, t, from + 1);
        let first = hotkey::all_actions()[from];
        if global_holder(k, c, t, from) is None {
            assert forall|i: int| from <= i < 6 implies !global_holds(
                k,
                c,
                t,
                #[trigger] hotkey::all_actions()[i],
            ) by {
                if i == from {
                    assert(!global_holds(k, c, t, first));
                }
            }
        }
    }
}

/// There is no conflict exactly where no slot but the target's own holds the combination.
pub proof fn law_conflicts(k: Keymap, c: Combo, t: CaptureTarget)
    ensures
        conflict(k, c, t) is None <==> free_but_for(k, c, t),
{
    lemma_session_holder(k, c, t, 0);
    lemma_global_holder(k, c, t, 0);
    if conflict(k, c, t) is None {
        assert forall|u: CaptureTarget| u != t implies #[trigger] at_target(k, u) != Some(c) by {
            match u {
                CaptureTarget::Session(x, _) => {
                    let i: int = match x {
                        SessionAction::PagePrev => 0,
                        SessionAction::PageNext => 1,
                        SessionAction::CandidatePrev => 2,
                        SessionAction::CandidateNext => 3,
                        SessionAction::SwapLeft => 4,
                        SessionAction::SwapRight => 5,
                        SessionAction::HideCandidate => 6,
                    };
                    assert(session_order()[i] == x);
                    assert(!session_holds(k, c, t, x));
                },
                CaptureTarget::Global(x, _) => {
                    assert(hotkey::all_actions()[hotkey::action_number(x)] == x);
                    assert(!global_holds(k, c, t, x));
                },
            }
        }
    }
    if free_but_for(k, c, t) {
        assert forall|a: SessionAction| !session_holds(k, c, t, a) by {}
        assert forall|a: GlobalAction| !global_holds(k, c, t, a) by {}
    }
}

/// Whether a slot other than `t` holds a combination.
fn is_held_at(k: &Keymap, c: Combo, t: CaptureTarget, u: CaptureTarget) -> (r: bool)
    ensures
        r == held_at(*k, c, t, u),
{
    u != t && crate::ime::slot_is(target_combo(k, u), c)
}

/// Finds the action that holds a combination already.
pub fn find_conflict(k: &Keymap, c: Combo, t: CaptureTarget) -> (r: Option<&'static str>)
    ensures
        r is Some <==> conflict(*k, c, t) is Some,
        r matches Some(s) ==> conflict(*k, c, t) == Some(s@),
        r is None <==> free_but_for(*k, c, t),
{
    proof {
        law_conflicts(*k, c, t);
    }
    let sessions: Vec<SessionAction> = session_actions();
    let mut i: usize = 0;
    while i < sessions.len()
        invariant
            i <= sessions@.len() == 7,
            sessions@ == session_order(),
            session_holder(*k, c, t, 0) == session_holder(*k, c, t, i as int),
            conflict(*k, c, t) is None <==> free_but_for(*k, c, t),
        decreases 7 - i,
    {
        let a: SessionAction = sessions[i];
        if is_held_at(k, c, t, CaptureTarget::Session(a, Slot::Primary)) || is_held_at(
            k,
            c,
            t,
            CaptureTarget::Session(a, Slot::Secondary),
        ) {
            return Some(session_label(a));
        }
        i = i + 1;
    }
    let globals: Vec<GlobalAction> = global_actions();
    let mut j: usize = 0;
    while j < globals.len()
        invariant
            j <= globals@.len() == 6,
            globals@ == hotkey::all_actions(),
            session_holder(*k, c, t, 0) is None,
            global_holder(*k, c, t, 0) == global_holder(*k, c, t, j as int),
            conflict(*k, c, t) is None <==> free_but_for(*k, c, t),
        decreases 6 - j,
    {
        let a: GlobalAction = globals[j];
        if is_held_at(k, c, t, CaptureTarget::Global(a, Slot::Primary)) || is_held_at(
            k,
            c,
            t,
            CaptureTarget::Global(a, Slot::Secondary),
        ) {
            return Some(global_action_label(a));
        }
        j = j + 1;
    }
    None
}

/// Why a combination cannot be bound to a target; `None` where it can. `name` is how the
/// combination is written. The first reason that applies is given: a session action takes no
/// Alt, no Ctrl and no letter; a global one takes a modifier and not Ctrl+Space; and no
/// combination is held twice.
pub open spec fn refusal(
    k: Keymap,
    t: CaptureTarget,
    c: Combo,
    name: Seq<char>,
) -> Option<Seq<char>> {
    let label = target_caption(t);
    let session = t is Session;
    if session && c.alt {
        Some(
            label
                + "：Alt 组合不会到达输入法会话（WM_SYSKEYDOWN 不进 TSF 键 sink），运行时无效。"@,
        )
    } else if session && c.ctrl {
        Some(label + "：Ctrl 组合让位给应用（冲突大），会话快捷键不可用。"@)
    } else if session && c.on_letter() {
        Some(label + "：字母键是拼音输入空间，不能作为会话快捷键。"@)
    } else if !session && !c.modified() {
        Some(label + "：全局热键必须含修饰键（否则全系统劫持字母/数字）。"@)
    } else if !session && name == "Ctrl+Space"@ {
        Some(label + "：Ctrl+Space 是系统「输入法/非输入法切换」热键，建议不要占用。"@)
    } else {
        match conflict(k, c, t) {
            Some(other) => Some(
                label + "："@ + name + " 已被「"@ + other + "」占用，请换一个组合。"@,
            ),
            None => None,
        }
    }
}

/// Whether a combination can be bound to a target; if not, the reason.
pub fn validate_combo(k: &Keymap, t: CaptureTarget, c: &Combo, name: &str) -> (r: Result<
    (),
    String,
>)
    ensures
        r is Ok <==> refusal(*k, t, *c, name@) is None,
        r matches Err(msg) ==> refusal(*k, t, *c, name@) == Some(msg@),
        r is Ok <==> free_but_for(*k, *c, t) && match t {
            CaptureTarget::Session(_, _) => !c.alt && !c.ctrl && !c.on_letter(),
            CaptureTarget::Global(_, _) => c.modified() && name@ != "Ctrl+Space"@,
        },
{
    proof {
        law_conflicts(*k, *c, t);
    }
    let label: &'static str = target_label(t);
    match t {
        CaptureTarget::Session(_, _) => {
            if c.alt {
                return Err(
                    join2(
                        label,
                        "：Alt 组合不会到达输入法会话（WM_SYSKEYDOWN 不进 TSF 键 sink），运行时无效。",
                    ),
                );
            }
            if c.ctrl {
                return Err(join2(label, "：Ctrl 组合让位给应用（冲突大），会话快捷键不可用。"));
            }
            if c.base_is_letter() {
                return Err(join2(label, "：字母键是拼音输入空间，不能作为会话快捷键。"));
            }
        },
        CaptureTarget::Global(_, _) => {
            if !c.has_modifier() {
                return Err(join2(label, "：全局热键必须含修饰键（否则全系统劫持字母/数字）。"));
            }
            if same_text(name, "Ctrl+Space") {
                return Err(
                    join2(
                        label,
                        "：Ctrl+Space 是系统「输入法/非输入法切换」热键，建议不要占用。",
                    ),
                );
            }
        },
    }
    match find_conflict(k, *c, t) {
        Some(other) => {
            let mut msg: String = join3(label, "：", name);
            msg.append(" 已被「");
            msg.append(other);
            msg.append("」占用，请换一个组合。");
            Err(msg)
        },
        None => Ok(()),
    }
}

/// Whether no combination is held by two slots.
pub open spec fn no_double_bindings(k: Keymap) -> bool {
    forall|t: CaptureTarget, u: CaptureTarget|
        #![trigger at_target(k, t), at_target(k, u)]
        t != u && at_target(k, t) is Some ==> at_target(k, t) != at_target(k, u)
}

/// Binding a combination that is not refused gives the target that combination, and no other
/// slot holds it then, whatever the shortcuts were before. Where no combination was held twice,
/// none is held twice after it.
pub proof fn law_bindings_stay_distinct(k: Keymap, t: CaptureTarget, c: Combo, name: Seq<char>)
    requires
        refusal(k, t, c, name) is None,
    ensures
        at_target(with_target(k, t, Some(c)), t) == Some(c),
        free_but_for(with_target(k, t, Some(c)), c, t),
        no_double_bindings(k) ==> no_double_bindings(with_target(k, t, Some(c))),
{
    law_conflicts(k, c, t);
    let n = with_target(k, t, Some(c));
    assert forall|u: CaptureTarget| u != t implies #[trigger] at_target(n, u) != Some(c) by {
        law_set_target(k, t, Some(c), u);
        assert(at_target(k, u) != Some(c));
    }
    if no_double_bindings(k) {
        assert forall|a: CaptureTarget, b: CaptureTarget|
            #![trigger at_target(n, a), at_target(n, b)]
            a != b && at_target(n, a) is Some implies at_target(n, a) != at_target(n, b) by {
            law_set_target(k, t, Some(c), a);
            law_set_target(k, t, Some(c), b);
            assert(at_target(k, a) is Some || a == t);
        }
    }
}

/// What the settings window holds until it is saved.
pub struct SettingsApp {
    pub tab: Tab,
    pub theme: String,
    pub orientation: String,
    pub page_size: usize,
    pub initial: ImeState,
    /// One program on a line.
    pub passthrough: String,
    /// One program on a line.
    pub candidate_owner: String,
    pub keymap: Keymap,
    /// The slot that a combination is being recorded for.
    pub capture: Option<CaptureTarget>,
    pub capturing: bool,
    /// Why the last combination was not taken.
    pub keymap_warn: Option<String>,
    pub disabled_log: Vec<String>,
    /// Whether it is being asked if the dictionary shall be cleared.
    pub confirm_clear: bool,
    /// Whether saving clears the dictionary.
    pub pending_clear: bool,
    /// What came of the last save.
    pub status: String,
}

/// What a text reads as: nothing for `None`.
pub open spec fn warning(w: Option<String>) -> Option<Seq<char>> {
    match w {
        Some(s) => Some(s@),
        None => None,
    }
}

/// What a recorded combination does to the shortcuts.
pub open spec fn keymap_after(
    k: Keymap,
    t: CaptureTarget,
    o: CaptureOutcome,
    name: Seq<char>,
) -> Keymap {
    match o {
        CaptureOutcome::Captured(c) => if refusal(k, t, c, name) is None {
            with_target(k, t, Some(c))
        } else {
            k
        },
        CaptureOutcome::Clear => with_target(k, t, None),
        _ => k,
    }
}

/// The warning that a recorded combination leaves.
pub open spec fn warning_after(
    k: Keymap,
    t: CaptureTarget,
    o: CaptureOutcome,
    name: Seq<char>,
) -> Option<Seq<char>> {
    match o {
        CaptureOutcome::Captured(c) => refusal(k, t, c, name),
        CaptureOutcome::Rejected(c) => Some(
            "「"@ + name
                + "」不可用：纯字母键无修饰会被拼音输入吞掉，请按带修饰的组合键。"@,
        ),
        _ => None,
    }
}

/// What the button of a slot says. `name` is how the slot's combination is written.
pub open spec fn slot_text_of(recording: bool, which: Slot, name: Option<Seq<char>>) -> Seq<char> {
    if recording {
        "按下组合键…（Esc 取消 / Backspace 清除）"@
    } else {
        match name {
            Some(n) => n + "（"@ + which.caption() + "）"@,
            None => "未设置"@,
        }
    }
}

/// The programs of a list that is written one to a line.
pub open spec fn listed(t: Seq<char>) -> Seq<Seq<char>> {
    text::entries(text::lines_from(t, 0))
}

/// Whether a program can stand in a list that is written one to a line: it has a name, with no
/// line feed in it and no white space around it.
pub open spec fn one_line(e: Seq<char>) -> bool {
    &&& e.len() > 0
    &&& !text::is_space(e[0])
    &&& !text::is_space(e.last())
    &&& forall|i: int| 0 <= i < e.len() ==> #[trigger] e[i] != '\n'
}

proof fn feed_in_suffix(p: Seq<char>, q: Seq<char>, k: int)
    requires
        0 <= k,
    ensures
        text::next_line_feed(p + q, p.len() + k) == p.len() + text::next_line_feed(q, k),
    decreases q.len() - k,
{
    if k < q.len() {
        assert((p + q)[p.len() + k] == q[k]);
        if q[k] != '\n' {
            feed_in_suffix(p, q, k + 1);
        }
    }
}

proof fn feed_at_least(t: Seq<char>, from: int)
    ensures
        text::next_line_feed(t, from) >= from,
    decreases t.len() - from,
{
    if 0 <= from < t.len() && t[from] != '\n' {
        feed_at_least(t, from + 1);
    }
}

proof fn lines_in_suffix(p: Seq<char>, q: Seq<char>, k: int)
    requires
        0 <= k,
    ensures
        text::lines_from(p + q, p.len() + k) == text::lines_from(q, k),
    decreases q.len() - k,
{
    let t = p + q;
    if k < q.len() {
        feed_in_suffix(p, q, k);
        feed_at_least(q, k);
        let end = text::next_line_feed(q, k);
        if end < q.len() {
            if end > k {
                assert(t[p.len() + end - 1] == q[end - 1]);
            }
            lines_in_suffix(p, q, end + 1);
            let stop = if end > k && q[end - 1] == '\r' {
                end - 1
            } else {
                end
            };
            assert(t.subrange(p.len() + k, p.len() + stop) =~= q.subrange(k, stop));
        } else {
            assert(t.subrange(p.len() + k, t.len() as int) =~= q.subrange(k, q.len() as int));
        }
    }
}

proof fn feed_after(e: Seq<char>, rest: Seq<char>, from: int)
    requires
        0 <= from <= e.len(),
        forall|i: int| 0 <= i < e.len() ==> #[trigger] e[i] != '\n',
        rest.len() == 0 || rest[0] == '\n',
    ensures
        text::next_line_feed(e + rest, from) == e.len(),
    decreases e.len() - from,
{
    if from < e.len() {
        assert((e + rest)[from] == e[from]);
        feed_after(e, rest, from + 1);
    } else if rest.len() > 0 {
        assert((e + rest)[from] == rest[0]);
    }
}

proof fn joined_from_front(list: Seq<Seq<char>>, sep: Seq<char>)
    requires
        list.len() >= 2,
    ensures
        text::joined(list, sep) == list[0] + sep + text::joined(list.skip(1), sep),
    decreases list.len(),
{
    let front = list.drop_last();
    if list.len() == 2 {
        assert(text::joined(front, sep) == list[0]);
        assert(list.skip(1).len() == 1);
        assert(text::joined(list.skip(1), sep) == list[1]);
    } else {
        joined_from_front(front, sep);
        assert(front.skip(1) =~= list.skip(1).drop_last());
        assert(list.skip(1).last() == list.last());
        assert(list[0] + sep + text::joined(front.skip(1), sep) + sep + list.last() =~= list[0]
            + sep + (text::joined(front.skip(1), sep) + sep + list.last()));
    }
}

/// A list of programs that is shown and saved again stays as it is.
pub proof fn law_lists_round_trip(list: Seq<Seq<char>>)
    requires
        forall|i: int| 0 <= i < list.len() ==> one_line(#[trigger] list[i]),
    ensures
        listed(text::joined(list, "\n"@)) == list,
    decreases list.len(),
{
    reveal_strlit("\n");
    let sep = "\n"@;
    assert(sep =~= seq!['\n']);
    let t = text::joined(list, sep);
    if list.len() == 0 {
        assert(text::lines_from(t, 0) =~= Seq::empty());
        assert(listed(t) =~= list);
    } else if list.len() == 1 {
        let e = list[0];
        feed_after(e, Seq::empty(), 0);
        assert(e + Seq::<char>::empty() =~= e);
        assert(e.subrange(0, e.len() as int) =~= e);
        assert(text::lines_from(t, 0) =~= seq![e]);
        assert(text::trimmed(e) == e);
        assert(seq![e].skip(1) =~= Seq::empty());
        reveal_with_fuel(text::entries, 2);
        assert(listed(t) =~= list);
    } else {
        let e = list[0];
        let rest = list.skip(1);
        joined_from_front(list, sep);
        law_lists_round_trip(rest);
        let tail = text::joined(rest, sep);
        assert(t =~= e + (sep + tail));
        assert((sep + tail)[0] == '\n');
        feed_after(e, sep + tail, 0);
        assert(t[e.len() - 1] == e.last());
        assert(t.subrange(0, e.len() as int) =~= e);
        assert(t =~= (e + sep) + tail);
        lines_in_suffix(e + sep, tail, 0);
        let lines = text::lines_from(t, 0);
        assert(lines =~= seq![e] + text::lines_from(tail, 0));
        assert(lines.skip(1) =~= text::lines_from(tail, 0));
        assert(lines[0] == e);
        assert(text::trimmed(e) == e);
        assert(listed(t) =~= seq![e] + rest);
        assert(seq![e] + rest =~= list);
    }
}

/// The names of a list, one to a line.
fn join_names(names: &[&'static str]) -> (r: String)
    ensures
        r@ == text::joined(Seq::new(names@.len(), |i: int| names@[i]@), "\n"@),
{
    let mut list: Vec<String> = Vec::new();
    let mut i: usize = 0;
    while i < names.len()
        invariant
            i <= names@.len(),
            text::views(list@) =~= Seq::new(i as nat, |k: int| names@[k]@),
        decreases names@.len() - i,
    {
        let ghost before = text::views(list@);
        let name: &'static str = names[i];
        list.push(name.to_owned());
        assert(text::views(list@) =~= before.push(names@[i as int]@));
        i = i + 1;
    }
    assert(text::views(list@) =~= Seq::new(names@.len(), |k: int| names@[k]@));
    join_list(&list, "\n")
}

impl SettingsApp {
    /// The window as it opens: it shows the settings as they are.
    pub fn new(cfg: &DaemonConfig) -> (r: SettingsApp)
        ensures
            r.tab == Tab::Common,
            r.theme@ == cfg@.theme,
            r.orientation@ == cfg@.orientation,
            r.page_size == cfg@.page_size,
            r.initial == cfg@.initial_state,
            r.passthrough@ == text::joined(cfg@.passthrough_apps, "\n"@),
            r.candidate_owner@ == text::joined(cfg@.candidate_owner_apps, "\n"@),
            r.keymap == cfg@.keymap,
            text::views(r.disabled_log@) == cfg@.disabled_log_modules,
            r.capture is None,
            !r.capturing,
            r.keymap_warn is None,
            !r.confirm_clear,
            !r.pending_clear,
            r.status@ == Seq::<char>::empty(),
    {
        SettingsApp {
            tab: Tab::Common,
            theme: cfg.theme.clone(),
            orientation: cfg.candidate_orientation.clone(),
            page_size: cfg.page_size,
            initial: cfg.initial_state,
            passthrough: join_list(&cfg.passthrough_apps, "\n"),
            candidate_owner: join_list(&cfg.candidate_owner_apps, "\n"),
            keymap: cfg.keymap,
            capture: None,
            capturing: false,
            keymap_warn: None,
            disabled_log: copy_list(&cfg.disabled_log_modules),
            confirm_clear: false,
            pending_clear: false,
            status: String::new(),
        }
    }

    /// Turns to a tab.
    pub fn select_tab(&mut self, tab: Tab)
        ensures
            *final(self) == (SettingsApp { tab, status: final(self).status, ..*old(self) }),
            final(self).status@ == Seq::<char>::empty(),
    {
        self.tab = tab;
        self.status = String::new();
    }

    /// Begins to record a combination for a slot.
    pub fn start_capture(&mut self, target: CaptureTarget)
        ensures
            *final(self) == (SettingsApp {
                capture: Some(target),
                capturing: true,
                keymap_warn: None,
                ..*old(self)
            }),
    {
        self.capture = Some(target);
        self.capturing = true;
        self.keymap_warn = None;
    }

    /// Takes what a recording ended with, for a slot. `name` is how the combination is written.
    pub fn apply_capture(&mut self, target: CaptureTarget, outcome: CaptureOutcome, name: &str)
        ensures
            *final(self) == (SettingsApp {
                keymap: keymap_after(old(self).keymap, target, outcome, name@),
                keymap_warn: final(self).keymap_warn,
                ..*old(self)
            }),
            warning(final(self).keymap_warn) == warning_after(
                old(self).keymap,
                target,
                outcome,
                name@,
            ),
    {
        match outcome {
            CaptureOutcome::Cancel => {
                self.keymap_warn = None;
            },
            CaptureOutcome::Clear => {
                set_target(&mut self.keymap, target, None);
                self.keymap_warn = None;
            },
            CaptureOutcome::Rejected(_) => {
                self.keymap_warn = Some(
                    join3(
                        "「",
                        name,
                        "」不可用：纯字母键无修饰会被拼音输入吞掉，请按带修饰的组合键。",
                    ),
                );
            },
            CaptureOutcome::Captured(combo) => match validate_combo(
                &self.keymap,
                target,
                &combo,
                name,
            ) {
                Err(msg) => {
                    self.keymap_warn = Some(msg);
                },
                Ok(()) => {
                    set_target(&mut self.keymap, target, Some(combo));
                    self.keymap_warn = None;
                },
            },
        }
    }

    /// Takes a key of the window while a combination is being recorded: one that ends the
    /// recording is applied, any other leaves it waiting.
    pub fn poll_capture(&mut self, outcome: Option<CaptureOutcome>, name: &str)
        ensures
            !old(self).capturing || outcome is None ==> *final(self) == *old(self),
            old(self).capturing && outcome is Some ==> {
                let o = outcome->0;
                let k = old(self).keymap;
                &&& *final(self) == (SettingsApp {
                    capturing: false,
                    capture: None,
                    keymap: match old(self).capture {
                        Some(t) => keymap_after(k, t, o, name@),
                        None => k,
                    },
                    keymap_warn: final(self).keymap_warn,
                    ..*old(self)
                })
                &&& old(self).capture matches Some(t) ==> warning(final(self).keymap_warn)
                    == warning_after(k, t, o, name@)
                &&& old(self).capture is None ==> final(self).keymap_warn == old(self).keymap_warn
            },
    {
        if !self.capturing {
            return ;
        }
        if let Some(o) = outcome {
            let target: Option<CaptureTarget> = self.capture;
            self.capturing = false;
            self.capture = None;
            if let Some(t) = target {
                self.apply_capture(t, o, name);
            }
        }
    }

    /// The window closes: a recording ends with nothing.
    pub fn on_exit(&mut self)
        ensures
            *final(self) == (SettingsApp { capturing: false, capture: None, ..*old(self) }),
    {
        self.capturing = false;
        self.capture = None;
    }

    /// What the button of a slot says. `name` is how the slot's combination is written.
    pub fn slot_text(&self, target: CaptureTarget, name: Option<&str>) -> (r: String)
        ensures
            ({
                let which = match target {
                    CaptureTarget::Session(_, w) => w,
                    CaptureTarget::Global(_, w) => w,
                };
                r@ == slot_text_of(
                    self.capturing && self.capture == Some(target),
                    which,
                    match name {
                        Some(n) => Some(n@),
                        None => None,
                    },
                )
            }),
    {
        let which: Slot = match target {
            CaptureTarget::Session(_, w) => w,
            CaptureTarget::Global(_, w) => w,
        };
        let here: bool = match self.capture {
            Some(t) => t == target,
            None => false,
        };
        if self.capturing && here {
            "按下组合键…（Esc 取消 / Backspace 清除）".to_owned()
        } else {
            match name {
                Some(n) => {
                    let mut s: String = join3(n, "（", which.name());
                    s.append("）");
                    s
                },
                None => "未设置".to_owned(),
            }
        }
    }

    /// Puts the default shortcuts back.
    pub fn restore_keymap(&mut self, defaults: Keymap)
        ensures
            *final(self) == (SettingsApp { keymap: defaults, keymap_warn: None, ..*old(self) }),
    {
        self.keymap = defaults;
        self.keymap_warn = None;
    }

    /// Puts the default list of programs whose keys go through back.
    pub fn restore_passthrough(&mut self)
        ensures
            *final(self) == (SettingsApp { passthrough: final(self).passthrough, ..*old(self) }),
            final(self).passthrough@ == text::joined(
                Seq::new(8, |i: int| DEFAULT_PASSTHROUGH_APPS@[i]@),
                "\n"@,
            ),
    {
        self.passthrough = join_names(DEFAULT_PASSTHROUGH_APPS.as_slice());
    }

    /// Puts the default list of programs that draw the candidates themselves back.
    pub fn restore_candidate_owner(&mut self)
        ensures
            *final(self) == (SettingsApp {
                candidate_owner: final(self).candidate_owner,
                ..*old(self)
            }),
            final(self).candidate_owner@ == text::joined(
                Seq::new(10, |i: int| DEFAULT_CANDIDATE_OWNER_APPS@[i]@),
                "\n"@,
            ),
    {
        self.candidate_owner = join_names(DEFAULT_CANDIDATE_OWNER_APPS.as_slice());
    }

    /// Asks whether the dictionary shall be cleared.
    pub fn ask_clear(&mut self)
        ensures
            *final(self) == (SettingsApp { confirm_clear: true, ..*old(self) }),
    {
        self.confirm_clear = true;
    }

    /// The answer: saving will clear the dictionary, or nothing changes.
    pub fn answer_clear(&mut self, yes: bool)
        ensures
            *final(self) == (SettingsApp {
                confirm_clear: false,
                pending_clear: old(self).pending_clear || yes,
                status: final(self).status,
                ..*old(self)
            }),
            final(self).status@ == if yes {
                "已标记清除全部用户库（确定/应用后生效）"@
            } else {
                old(self).status@
            },
    {
        self.confirm_clear = false;
        if yes {
            self.pending_clear = true;
            self.status = "已标记清除全部用户库（确定/应用后生效）".to_owned();
        }
    }
}

/// A list without the entries that are `tag`.
pub open spec fn without(list: Seq<Seq<char>>, tag: Seq<char>) -> Seq<Seq<char>>
    decreases list.len(),
{
    if list.len() == 0 {
        Seq::empty()
    } else {
        let rest = without(list.drop_last(), tag);
        if list.last() == tag {
            rest
        } else {
            rest.push(list.last())
        }
    }
}

/// The switched-off log modules after `tag` was switched on or off.
pub open spec fn switched(list: Seq<Seq<char>>, tag: Seq<char>, on: bool) -> Seq<Seq<char>> {
    if on {
        without(list, tag)
    } else if list.contains(tag) {
        list
    } else {
        list.push(tag)
    }
}

proof fn lemma_without(list: Seq<Seq<char>>, tag: Seq<char>)
    ensures
        !without(list, tag).contains(tag),
        !list.contains(tag) ==> without(list, tag) == list,
    decreases list.len(),
{
    if list.len() > 0 {
        lemma_without(list.drop_last(), tag);
        let rest = without(list.drop_last(), tag);
        assert(list =~= list.drop_last().push(list.last()));
        if !list.contains(tag) {
            assert(!list.drop_last().contains(tag)) by {
                if list.drop_last().contains(tag) {
                    let i = choose|i: int|
                        0 <= i < list.drop_last().len() && list.drop_last()[i] == tag;
                    assert(list[i] == tag);
                }
            }
            assert(list[list.len() - 1] != tag);
        }
        if list.last() != tag {
            assert forall|i: int| 0 <= i < rest.push(list.last()).len() implies rest.push(
                list.last(),
            )[i] != tag by {
                if i < rest.len() {
                    assert(rest[i] == rest.push(list.last())[i]);
                    assert(!rest.contains(tag));
                }
            }
        }
    } else {
        assert(without(list, tag) =~= list);
    }
}

/// After a module was switched on it is not in the list of those that are off, after it was
/// switched off it is; switching off one that is on and then on again changes nothing.
pub proof fn law_log_switch(list: Seq<Seq<char>>, tag: Seq<char>)
    ensures
        !switched(list, tag, true).contains(tag),
        switched(list, tag, false).contains(tag),
        !list.contains(tag) ==> switched(switched(list, tag, false), tag, true) == list,
{
    lemma_without(list, tag);
    if !list.contains(tag) {
        let pushed = list.push(tag);
        assert(pushed[pushed.len() - 1] == tag);
        assert(pushed.drop_last() =~= list);
    }
}

/// What saving says: whether the settings were stored, and whether the dictionary was cleared.
pub open spec fn save_status(failure: Option<Seq<char>>, cleared: bool) -> Seq<char> {
    let first = match failure {
        None => "配置已保存并广播 config_epoch（会话进程检测后重载）"@,
        Some(e) => "配置保存失败："@ + e,
    };
    if cleared {
        first + "；"@ + "已清除全部用户库（已落盘）"@
    } else {
        first
    }
}

impl SettingsApp {
    /// Switches a log module on or off.
    pub fn switch_log_module(&mut self, tag: &str, on: bool)
        ensures
            *final(self) == (SettingsApp { disabled_log: final(self).disabled_log, ..*old(self) }),
            text::views(final(self).disabled_log@) == switched(
                text::views(old(self).disabled_log@),
                tag@,
                on,
            ),
    {
        let ghost all = text::views(self.disabled_log@);
        let mut kept: Vec<String> = Vec::new();
        let mut found: bool = false;
        let mut i: usize = 0;
        assert(all.take(0) =~= Seq::empty());
        while i < self.disabled_log.len()
            invariant
                i <= self.disabled_log@.len(),
                all == text::views(self.disabled_log@),
                *self == *old(self),
                text::views(kept@) =~= without(all.take(i as int), tag@),
                found <==> all.take(i as int).contains(tag@),
            decreases self.disabled_log@.len() - i,
        {
            let ghost before = text::views(kept@);
            assert(all.take(i + 1).drop_last() =~= all.take(i as int));
            assert(all.take(i + 1) =~= all.take(i as int).push(all[i as int]));
            assert(all[i as int] == self.disabled_log@[i as int]@);
            let same: bool = same_text(self.disabled_log[i].as_str(), tag);
            if same {
                found = true;
                assert(all.take(i + 1)[i as int] == tag@);
            } else {
                kept.push(self.disabled_log[i].clone());
                assert(text::views(kept@) =~= before.push(all[i as int]));
                assert(all.take(i + 1).contains(tag@) <==> all.take(i as int).contains(tag@)) by {
                    if all.take(i as int).contains(tag@) {
                        let k = choose|k: int|
                            0 <= k < all.take(i as int).len() && all.take(i as int)[k] == tag@;
                        assert(all.take(i + 1)[k] == tag@);
                    }
                    let longer = all.take(i + 1);
                    if longer.contains(tag@) {
                        let k = choose|k: int| 0 <= k < longer.len() && longer[k] == tag@;
                        assert(all.take(i as int)[k] == tag@);
                    }
                }
            }
            i = i + 1;
        }
        assert(all.take(i as int) =~= all);
        if on {
            self.disabled_log = kept;
        } else if !found {
            self.disabled_log.push(tag.to_owned());
            assert(text::views(self.disabled_log@) =~= all.push(tag@));
        }
    }

    /// The settings as the window has them.
    pub fn collect(&self) -> (r: DaemonConfig)
        ensures
            r@.theme == if self.theme@ == "dark"@ {
                "dark"@
            } else {
                "light"@
            },
            r@.orientation == if self.orientation@ == "horizontal"@ {
                "horizontal"@
            } else {
                "vertical"@
            },
            r@.page_size == self.page_size,
            r@.initial_state == self.initial,
            r@.passthrough_apps == listed(self.passthrough@),
            r@.candidate_owner_apps == listed(self.candidate_owner@),
            r@.disabled_log_modules == text::views(self.disabled_log@),
            r@.keymap == self.keymap,
    {
        let theme: &str = if same_text(self.theme.as_str(), "dark") {
            "dark"
        } else {
            "light"
        };
        let orientation: &str = if same_text(self.orientation.as_str(), "horizontal") {
            "horizontal"
        } else {
            "vertical"
        };
        DaemonConfig {
            theme: theme.to_owned(),
            candidate_orientation: orientation.to_owned(),
            page_size: self.page_size,
            initial_state: self.initial,
            passthrough_apps: entries_of(self.passthrough.as_str()),
            candidate_owner_apps: entries_of(self.candidate_owner.as_str()),
            disabled_log_modules: copy_list(&self.disabled_log),
            keymap: self.keymap,
        }
    }

    /// Ends a save. `failure` is why the settings were not stored, if they were not. Says
    /// whether the dictionary is to be cleared now, which it is once.
    pub fn apply(&mut self, failure: Option<&str>) -> (clear: bool)
        ensures
            clear == old(self).pending_clear,
            *final(self) == (SettingsApp {
                pending_clear: false,
                status: final(self).status,
                ..*old(self)
            }),
            final(self).status@ == save_status(
                match failure {
                    Some(e) => Some(e@),
                    None => None,
                },
                clear,
            ),
    {
        let mut status: String = match failure {
            None => "配置已保存并广播 config_epoch（会话进程检测后重载）".to_owned(),
            Some(e) => join2("配置保存失败：", e),
        };
        let clear: bool = self.pending_clear;
        if clear {
            self.pending_clear = false;
            status.append("；");
            status.append("已清除全部用户库（已落盘）");
        }
        self.status = status;
        clear
    }

    /// Whether the last save is to be shown as a failure.
    pub fn status_failed(&self) -> (r: bool)
        ensures
            r == text::stands_in(self.status@, "失败"@),
    {
        contains_text(self.status.as_str(), "失败")
    }
}

/// A save that could not store the settings is shown as a failure.
pub proof fn law_failure_shows(e: Seq<char>, cleared: bool)
    ensures
        text::stands_in(save_status(Some(e), cleared), "失败"@),
{
    reveal_strlit("配置保存失败：");
    reveal_strlit("失败");
    let t = save_status(Some(e), cleared);
    assert(t.subrange(4, 6) =~= "失败"@);
    assert(text::stands_at(t, "失败"@, 4));
}

/// A word of the dictionary with its weight, or blocked, as the window lists it.
pub open spec fn entry_line(code: Seq<char>, word: Seq<char>, weight: Option<u32>) -> Seq<char> {
    code + "\t"@ + word + match weight {
        Some(n) => "\t权重 "@ + text::decimal(n as nat),
        None => "\t[屏蔽]"@,
    }
}

/// The line for a word of the dictionary.
pub fn dict_line(code: &str, word: &str, weight: Option<u32>) -> (r: String)
    ensures
        r@ == entry_line(code@, word@, weight),
{
    let mut s: String = join3(code, "\t", word);
    match weight {
        Some(n) => {
            let number: String = to_decimal(n as u64);
            let tail: String = join2("\t权重 ", number.as_str());
            s.append(tail.as_str());
        },
        None => {
            s.append("\t[屏蔽]");
        },
    }
    s
}

/// What the window says after the logs were cleared.
pub open spec fn log_clear_text_of(ok: nat, fail: nat) -> Seq<char> {
    if fail == 0 {
        "已清除 "@ + text::decimal(ok) + " 个日志文件"@
    } else {
        "已清除 "@ + text::decimal(ok) + " 个；"@ + text::decimal(fail)
            + " 个被占用（进程正在写入）"@
    }
}

/// What the window says after the logs were cleared.
pub fn log_clear_text(ok: usize, fail: usize) -> (r: String)
    ensures
        r@ == log_clear_text_of(ok as nat, fail as nat),
{
    let done: String = to_decimal(ok as u64);
    if fail == 0 {
        join3("已清除 ", done.as_str(), " 个日志文件")
    } else {
        let left: String = to_decimal(fail as u64);
        let mut s: String = join3("已清除 ", done.as_str(), " 个；");
        s.append(left.as_str());
        s.append(" 个被占用（进程正在写入）");
        s
    }
}

/// Each page, slot and action is called by its own name.
pub proof fn law_captions()
    ensures
        Tab::Common.caption() == "常用"@,
        Tab::Keymap.caption() == "按键"@,
        Tab::Appearance.caption() == "外观"@,
        Tab::Dict.caption() == "词库"@,
        Tab::Advanced.caption() == "高级"@,
        Tab::Dev.caption() == "开发者"@,
        Slot::Primary.caption() == "主"@,
        Slot::Secondary.caption() == "备"@,
        session_caption(SessionAction::PagePrev) == "翻上一页"@,
        session_caption(SessionAction::PageNext) == "翻下一页"@,
        session_caption(SessionAction::CandidatePrev) == "候选前移"@,
        session_caption(SessionAction::CandidateNext) == "候选后移"@,
        session_caption(SessionAction::SwapLeft) == "调权（与左侧候选交换）"@,
        session_caption(SessionAction::SwapRight) == "调权（与右侧候选交换）"@,
        session_caption(SessionAction::HideCandidate) == "隐藏候选"@,
{
}

/// A shortcut is that of its action, in the slot that it is asked for.
pub proof fn law_target_is_its_slot(k: Keymap, a: SessionAction, g: GlobalAction)
    ensures
        at_target(k, CaptureTarget::Session(a, Slot::Primary)) == k.session(a).primary,
        at_target(k, CaptureTarget::Session(a, Slot::Secondary)) == k.session(a).secondary,
        at_target(k, CaptureTarget::Global(g, Slot::Primary)) == k.global(g).primary,
        at_target(k, CaptureTarget::Global(g, Slot::Secondary)) == k.global(g).secondary,
        target_caption(CaptureTarget::Session(a, Slot::Primary)) == session_caption(a),
        target_caption(CaptureTarget::Session(a, Slot::Secondary)) == session_caption(a),
        target_caption(CaptureTarget::Global(g, Slot::Primary)) == hotkey::label_of(g),
        target_caption(CaptureTarget::Global(g, Slot::Secondary)) == hotkey::label_of(g),
{
}

/// Every shortcut of a session is listed, and none twice.
pub proof fn law_session_actions_listed(a: SessionAction)
    ensures
        session_order().contains(a),
        session_order().no_duplicates(),
{
    let order = session_order();
    assert(order[0] == SessionAction::PagePrev);
    assert(order[1] == SessionAction::PageNext);
    assert(order[2] == SessionAction::CandidatePrev);
    assert(order[3] == SessionAction::CandidateNext);
    assert(order[4] == SessionAction::SwapLeft);
    assert(order[5] == SessionAction::SwapRight);
    assert(order[6] == SessionAction::HideCandidate);
}

proof fn session_holder_holds(k: Keymap, c: Combo, t: CaptureTarget, from: int)
    requires
        0 <= from,
    ensures
        session_holder(k, c, t, from) matches Some(label) ==> exists|u: CaptureTarget|
            #[trigger] at_target(k, u) == Some(c) && u != t && u is Session && target_caption(u)
                == label,
    decreases 7 - from,
{
    if from < 7 {
        session_holder_holds(k, c, t, from + 1);
        let a = session_order()[from];
        let one = CaptureTarget::Session(a, Slot::Primary);
        let other = CaptureTarget::Session(a, Slot::Secondary);
        if held_at(k, c, t, one) {
            assert(at_target(k, one) == Some(c));
        } else if held_at(k, c, t, other) {
            assert(at_target(k, other) == Some(c));
        }
    }
}

proof fn global_holder_holds(k: Keymap, c: Combo, t: CaptureTarget, from: int)
    requires
        0 <= from,
    ensures
        global_holder(k, c, t, from) matches Some(label) ==> exists|u: CaptureTarget|
            #[trigger] at_target(k, u) == Some(c) && u != t && u is Global && target_caption(u)
                == label,
    decreases 6 - from,
{
    if from < 6 {
        global_holder_holds(k, c, t, from + 1);
        let a = hotkey::all_actions()[from];
        let one = CaptureTarget::Global(a, Slot::Primary);
        let other = CaptureTarget::Global(a, Slot::Secondary);
        if held_at(k, c, t, one) {
            assert(at_target(k, one) == Some(c));
        } else if held_at(k, c, t, other) {
            assert(at_target(k, other) == Some(c));
        }
    }
}

/// A conflict names an action that has the combination already, at another place than the one it
/// is meant for; the shortcuts of a session are named before the hotkeys.
pub proof fn law_conflict_names_a_holder(k: Keymap, c: Combo, t: CaptureTarget)
    ensures
        conflict(k, c, t) matches Some(label) ==> exists|u: CaptureTarget|
            #[trigger] at_target(k, u) == Some(c) && u != t && target_caption(u) == label,
        conflict(k, c, t) is None ==> free_but_for(k, c, t),
{
    session_holder_holds(k, c, t, 0);
    global_holder_holds(k, c, t, 0);
    law_conflicts(k, c, t);
}

/// Why a combination is refused: a session never gets Alt, leaves Ctrl to the program and takes
/// letters as reading; a hotkey needs a modifier and leaves Ctrl+Space to the system; and one that
/// is taken is refused with the name of what has it. The first reason that holds is given, led by
/// what the combination was meant for. Where none holds, it is accepted.
pub proof fn law_reasons_of_refusal(k: Keymap, t: CaptureTarget, c: Combo, name: Seq<char>)
    ensures
        ({
            let r = refusal(k, t, c, name);
            let label = target_caption(t);
            let unfit = if t is Session {
                c.alt || c.ctrl || c.on_letter()
            } else {
                !c.modified() || name == "Ctrl+Space"@
            };
            &&& r is None <==> !unfit && free_but_for(k, c, t)
            &&& r matches Some(m) ==> m.len() >= label.len() && m.take(label.len() as int) == label
            &&& t is Session && c.alt ==> r == Some(
                label
                    + "：Alt 组合不会到达输入法会话（WM_SYSKEYDOWN 不进 TSF 键 sink），运行时无效。"@,
            )
            &&& t is Session && !c.alt && c.ctrl ==> r == Some(
                label + "：Ctrl 组合让位给应用（冲突大），会话快捷键不可用。"@,
            )
            &&& t is Session && !c.alt && !c.ctrl && c.on_letter() ==> r == Some(
                label + "：字母键是拼音输入空间，不能作为会话快捷键。"@,
            )
            &&& t is Global && !c.modified() ==> r == Some(
                label + "：全局热键必须含修饰键（否则全系统劫持字母/数字）。"@,
            )
            &&& t is Global && c.modified() && name == "Ctrl+Space"@ ==> r == Some(
                label + "：Ctrl+Space 是系统「输入法/非输入法切换」热键，建议不要占用。"@,
            )
            &&& !unfit && !free_but_for(k, c, t) ==> r == Some(
                label + "："@ + name + " 已被「"@ + conflict(k, c, t)->0
                    + "」占用，请换一个组合。"@,
            )
        }),
{
    law_conflicts(k, c, t);
    let label = target_caption(t);
    match refusal(k, t, c, name) {
        Some(m) => {
            assert(m.take(label.len() as int) =~= label);
        },
        None => {},
    }
}

/// What recording does: a combination that is accepted stands at its place and nowhere else
/// changes; one that is refused changes nothing and is warned of; clearing empties the place;
/// giving up changes nothing and warns of nothing.
pub proof fn law_recording(
    k: Keymap,
    t: CaptureTarget,
    c: Combo,
    name: Seq<char>,
    other: CaptureTarget,
)
    requires
        other != t,
    ensures
        ({
            let taken = keymap_after(k, t, CaptureOutcome::Captured(c), name);
            let warned = warning_after(k, t, CaptureOutcome::Captured(c), name);
            let cleared = keymap_after(k, t, CaptureOutcome::Clear, name);
            &&& refusal(k, t, c, name) is None ==> at_target(taken, t) == Some(c) && warned is None
            &&& refusal(k, t, c, name) is Some ==> taken == k && warned == refusal(k, t, c, name)
            &&& at_target(taken, other) == at_target(k, other)
            &&& at_target(cleared, t) is None
            &&& at_target(cleared, other) == at_target(k, other)
            &&& warning_after(k, t, CaptureOutcome::Clear, name) is None
            &&& keymap_after(k, t, CaptureOutcome::Cancel, name) == k
            &&& warning_after(k, t, CaptureOutcome::Cancel, name) is None
            &&& keymap_after(k, t, CaptureOutcome::Rejected(c), name) == k
            &&& warning_after(k, t, CaptureOutcome::Rejected(c), name) is Some
            &&& text::stands_in(warning_after(k, t, CaptureOutcome::Rejected(c), name)->0, name)
        }),
{
    law_set_target(k, t, Some(c), other);
    law_set_target(k, t, None, other);
    text::law_needle_found(
        "「"@,
        name,
        "」不可用：纯字母键无修饰会被拼音输入吞掉，请按带修饰的组合键。"@,
    );
}

/// A slot shows its combination and which slot it is, says so where it has none, and asks for one
/// while it is recording.
pub proof fn law_slot_shows(which: Slot, name: Seq<char>, n: Option<Seq<char>>)
    ensures
        slot_text_of(false, which, Some(name)) == name + "（"@ + which.caption() + "）"@,
        slot_text_of(false, which, None) == "未设置"@,
        slot_text_of(true, which, n) == "按下组合键…（Esc 取消 / Backspace 清除）"@,
{
}

proof fn others_in_order(list: Seq<Seq<char>>, tag: Seq<char>, x: Seq<char>)
    ensures
        x != tag ==> (without(list, tag).contains(x) <==> list.contains(x)),
        without(list, tag).len() <= list.len(),
    decreases list.len(),
{
    if list.len() > 0 {
        let start = list.drop_last();
        others_in_order(start, tag, x);
        let rest = without(start, tag);
        assert(list =~= start.push(list.last()));
        if x != tag {
            if start.contains(x) {
                let i = choose|i: int| 0 <= i < start.len() && start[i] == x;
                assert(list[i] == x);
            }
            if rest.contains(x) {
                let i = choose|i: int| 0 <= i < rest.len() && rest[i] == x;
                if list.last() != tag {
                    assert(rest.push(list.last())[i] == x);
                }
            }
            if list.last() == x {
                assert(list[list.len() - 1] == x);
                assert(rest.push(x)[rest.len() as int] == x);
            }
        }
    }
}

/// Switching one log on or off leaves the others as they are; off, it stands last.
pub proof fn law_other_logs_kept(list: Seq<Seq<char>>, tag: Seq<char>, x: Seq<char>, on: bool)
    requires
        x != tag,
    ensures
        switched(list, tag, on).contains(x) <==> list.contains(x),
        !list.contains(tag) ==> switched(list, tag, false) == list.push(tag),
        list.contains(tag) ==> switched(list, tag, false) == list,
        !list.contains(tag) ==> switched(list, tag, true) == list,
{
    others_in_order(list, tag, x);
    lemma_without(list, tag);
    let more = list.push(tag);
    if list.contains(x) {
        let i = choose|i: int| 0 <= i < list.len() && list[i] == x;
        assert(more[i] == x);
    }
}

/// What is said after saving: that it was saved, or why not; and that the words are gone, where
/// they are.
pub proof fn law_saving_told(e: Seq<char>)
    ensures
        save_status(None, false) == "配置已保存并广播 config_epoch（会话进程检测后重载）"@,
        save_status(Some(e), false) == "配置保存失败："@ + e,
        save_status(None, true) == save_status(None, false) + "；"@
            + "已清除全部用户库（已落盘）"@,
        save_status(Some(e), true) == save_status(Some(e), false) + "；"@
            + "已清除全部用户库（已落盘）"@,
{
}

/// A word is listed with its reading in front and its weight behind, or as blocked.
pub proof fn law_words_listed(code: Seq<char>, word: Seq<char>, n: u32)
    ensures
        entry_line(code, word, Some(n)) == code + "\t"@ + word + ("\t权重 "@ + text::decimal(
            n as nat,
        )),
        entry_line(code, word, None) == code + "\t"@ + word + "\t[屏蔽]"@,
{
}

/// How many logs were emptied is said, and how many were not where there are any.
pub proof fn law_clearing_told(ok: nat, fail: nat)
    ensures
        log_clear_text_of(ok, 0) == "已清除 "@ + text::decimal(ok) + " 个日志文件"@,
        fail > 0 ==> log_clear_text_of(ok, fail) == "已清除 "@ + text::decimal(ok) + " 个；"@
            + text::decimal(fail) + " 个被占用（进程正在写入）"@,
{
}

} // verus!
