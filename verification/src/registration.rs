//! Registering the input method with the system.

use vstd::prelude::*;

use crate::text;
use crate::text::{chars_of, join2, nul_ended, text_of};

verus! {

/// The class of the input method.
pub const CLSID_TEXT_SERVICE: &'static str = "{C69735F1-BAB1-458B-89FC-099ABA877ECB}";

/// Its profile.
pub const PROFILE_GUID: &'static str = "{799E00DD-64C2-4280-AC48-D379A9ABC5BE}";

/// Its language: Chinese as written in China.
pub const LANGID_ZH_CN: u16 = 0x0804;

/// Its name.
pub const PROFILE_DESCRIPTION: &'static str = "IUV 输入法";

/// Where its class stands in the registry, below the classes.
pub const CLSID_REG_KEY: &'static str = "CLSID\\{C69735F1-BAB1-458B-89FC-099ABA877ECB}";

/// Whether a character is a hexadecimal digit.
pub open spec fn is_hex(c: char) -> bool {
    ('0' <= c && c <= '9') || ('A' <= c && c <= 'F') || ('a' <= c && c <= 'f')
}

/// What a hexadecimal digit is worth.
pub open spec fn hex_digit(c: char) -> int {
    if '0' <= c && c <= '9' {
        c as u32 - 0x30
    } else if 'A' <= c && c <= 'F' {
        c as u32 - 0x41 + 10
    } else {
        c as u32 - 0x61 + 10
    }
}

/// The number that the hexadecimal digits of a text make, whatever stands between them left
/// aside.
pub open spec fn hex_value(t: Seq<char>) -> int
    decreases t.len(),
{
    if t.len() == 0 {
        0
    } else if is_hex(t.last()) {
        16 * hex_value(t.drop_last()) + hex_digit(t.last())
    } else {
        hex_value(t.drop_last())
    }
}

/// Whether a text is a GUID without braces: eight, four, four, four and twelve hexadecimal
/// digits, with hyphens between them.
pub open spec fn is_guid(t: Seq<char>) -> bool {
    &&& t.len() == 36
    &&& forall|i: int|
        0 <= i < 36 ==> if i == 8 || i == 13 || i == 18 || i == 23 {
            #[trigger] t[i] == '-'
        } else {
            is_hex(t[i])
        }
}

/// `windows_core::GUID::try_from`, and `GUID::to_u128` of what it gives: a text that is a GUID
/// without braces is read, digit by digit, the first being the highest; any other text is
/// refused.
#[verifier::external_body]
fn read_guid(t: &str) -> (r: Option<u128>)
    ensures
        r is Some == is_guid(t@),
        r matches Some(v) ==> v == hex_value(t@),
{
    match windows_core::GUID::try_from(t) {
        Ok(guid) => Some(guid.to_u128()),
        Err(_) => None,
    }
}

/// A text without the opening braces that it begins with.
pub open spec fn without_opening(t: Seq<char>) -> Seq<char>
    decreases t.len(),
{
    if t.len() > 0 && t[0] == '{' {
        without_opening(t.skip(1))
    } else {
        t
    }
}

/// A text without the closing braces that it ends with.
pub open spec fn without_closing(t: Seq<char>) -> Seq<char>
    decreases t.len(),
{
    if t.len() > 0 && t.last() == '}' {
        without_closing(t.drop_last())
    } else {
        t
    }
}

/// A text without white space and braces around it.
pub open spec fn unbraced(t: Seq<char>) -> Seq<char> {
    without_closing(without_opening(text::trimmed(t)))
}

/// Takes white space and braces off a text.
fn unbrace(s: &str) -> (r: String)
    ensures
        r@ == unbraced(s@),
{
    let cs: Vec<char> = chars_of(s);
    let (from, to) = text::trim_range(&cs, 0, cs.len());
    assert(cs@.subrange(0, cs@.len() as int) =~= s@);
    let mut a: usize = from;
    while a < to && cs[a] == '{'
        invariant
            from <= a <= to <= cs@.len(),
            without_opening(cs@.subrange(from as int, to as int)) == without_opening(
                cs@.subrange(a as int, to as int),
            ),
        decreases to - a,
    {
        assert(cs@.subrange(a as int, to as int).skip(1) =~= cs@.subrange(a + 1, to as int));
        a = a + 1;
    }
    let mut b: usize = to;
    while b > a && cs[b - 1] == '}'
        invariant
            a <= b <= to <= cs@.len(),
            without_closing(cs@.subrange(a as int, to as int)) == without_closing(
                cs@.subrange(a as int, b as int),
            ),
        decreases b - a,
    {
        assert(cs@.subrange(a as int, b as int).drop_last() =~= cs@.subrange(a as int, b - 1));
        b = b - 1;
    }
    text_of(&cs, a, b)
}

/// Reads a GUID that may have braces and white space around it.
pub fn parse_guid(s: &str) -> (r: u128)
    requires
        is_guid(unbraced(s@)),
    ensures
        r == hex_value(unbraced(s@)),
{
    let t: String = unbrace(s);
    read_guid(t.as_str()).unwrap()
}

/// Braces around a GUID make no difference.
pub proof fn law_braces_ignored(t: Seq<char>)
    requires
        is_guid(t),
    ensures
        unbraced(t) == t,
        unbraced(seq!['{'] + t + seq!['}']) == t,
{
    let b = seq!['{'] + t + seq!['}'];
    assert(t[0] != '{' && !text::is_space(t[0]));
    assert(t.last() == t[35]);
    assert(t.last() != '}' && !text::is_space(t.last()));
    assert(b[0] == '{');
    assert(b.last() == '}');
    assert(text::trimmed(t) == t);
    assert(text::trimmed(b) == b);
    assert(b.skip(1) =~= t + seq!['}']);
    assert((t + seq!['}'])[0] == t[0]);
    assert(without_opening(b) == t + seq!['}']) by {
        reveal_with_fuel(without_opening, 2);
    }
    assert((t + seq!['}']).drop_last() =~= t);
    assert(without_closing(t + seq!['}']) == t) by {
        reveal_with_fuel(without_closing, 2);
    }
}

/// The text of a GUID that stands in braces is one.
proof fn braced_guid(b: Seq<char>)
    requires
        b.len() == 38,
        b[0] == '{',
        b[37] == '}',
        is_guid(b.subrange(1, 37)),
    ensures
        unbraced(b) == b.subrange(1, 37),
{
    let t = b.subrange(1, 37);
    assert(seq!['{'] + t + seq!['}'] =~= b);
    law_braces_ignored(t);
}

/// The number of the class of the input method.
pub fn clsid() -> (r: u128)
    ensures
        r == hex_value(unbraced(CLSID_TEXT_SERVICE@)),
{
    proof {
        reveal_strlit("{C69735F1-BAB1-458B-89FC-099ABA877ECB}");
        braced_guid(CLSID_TEXT_SERVICE@);
    }
    parse_guid(CLSID_TEXT_SERVICE)
}

/// The number of its profile.
pub fn profile_guid() -> (r: u128)
    ensures
        r == hex_value(unbraced(PROFILE_GUID@)),
{
    proof {
        reveal_strlit("{799E00DD-64C2-4280-AC48-D379A9ABC5BE}");
        braced_guid(PROFILE_GUID@);
    }
    parse_guid(PROFILE_GUID)
}

/// What an input method can be announced as.
#[derive(Clone, Copy, Debug, PartialEq, Eq, Structural)]
pub enum TipCategory {
    Keyboard,
    ImmersiveSupport,
    InputModeCompartment,
    SysTraySupport,
    DisplayAttributeProvider,
    Comless,
    UiElementEnabled,
    CategoryOfTip,
}

/// What this one is announced as, in order.
pub open spec fn categories() -> Seq<TipCategory> {
    seq![
        TipCategory::Keyboard,
        TipCategory::ImmersiveSupport,
        TipCategory::InputModeCompartment,
        TipCategory::SysTraySupport,
        TipCategory::DisplayAttributeProvider,
        TipCategory::Comless,
        TipCategory::UiElementEnabled,
        TipCategory::CategoryOfTip,
    ]
}

/// A step of registering the input method, or of taking the registration back.
#[derive(Clone, Copy, Debug, PartialEq, Eq, Structural)]
pub enum RegisterStep {
    /// Make COM ready.
    InitCom,
    CreateProfiles,
    /// Register the class.
    Register,
    AddLanguageProfile,
    RemoveLanguageProfile,
    /// Take the class back.
    Unregister,
    CreateCategories,
    /// Announce it as this, or take that back.
    Category(TipCategory),
    Done,
    Failed,
}

/// The category behind another.
pub open spec fn category_after(c: TipCategory) -> Option<TipCategory> {
    match c {
        TipCategory::Keyboard => Some(TipCategory::ImmersiveSupport),
        TipCategory::ImmersiveSupport => Some(TipCategory::InputModeCompartment),
        TipCategory::InputModeCompartment => Some(TipCategory::SysTraySupport),
        TipCategory::SysTraySupport => Some(TipCategory::DisplayAttributeProvider),
        TipCategory::DisplayAttributeProvider => Some(TipCategory::Comless),
        TipCategory::Comless => Some(TipCategory::UiElementEnabled),
        TipCategory::UiElementEnabled => Some(TipCategory::CategoryOfTip),
        TipCategory::CategoryOfTip => None,
    }
}

fn next_category(c: TipCategory) -> (r: Option<TipCategory>)
    ensures
        r == category_after(c),
{
    match c {
        TipCategory::Keyboard => Some(TipCategory::ImmersiveSupport),
        TipCategory::ImmersiveSupport => Some(TipCategory::InputModeCompartment),
        TipCategory::InputModeCompartment => Some(TipCategory::SysTraySupport),
        TipCategory::SysTraySupport => Some(TipCategory::DisplayAttributeProvider),
        TipCategory::DisplayAttributeProvider => Some(TipCategory::Comless),
        TipCategory::Comless => Some(TipCategory::UiElementEnabled),
        TipCategory::UiElementEnabled => Some(TipCategory::CategoryOfTip),
        TipCategory::CategoryOfTip => None,
    }
}

/// The step behind a category.
pub open spec fn past_category(c: TipCategory) -> RegisterStep {
    match category_after(c) {
        Some(next) => RegisterStep::Category(next),
        None => RegisterStep::Done,
    }
}

/// The step of registering that follows: the first failure ends it, but for COM, which may be
/// ready already.
pub open spec fn register_after(step: RegisterStep, good: bool) -> RegisterStep {
    match step {
        RegisterStep::InitCom => RegisterStep::CreateProfiles,
        RegisterStep::Done => RegisterStep::Done,
        _ => if !good {
            RegisterStep::Failed
        } else {
            match step {
                RegisterStep::CreateProfiles => RegisterStep::Register,
                RegisterStep::Register => RegisterStep::AddLanguageProfile,
                RegisterStep::AddLanguageProfile => RegisterStep::CreateCategories,
                RegisterStep::CreateCategories => RegisterStep::Category(TipCategory::Keyboard),
                RegisterStep::Category(c) => past_category(c),
                _ => RegisterStep::Failed,
            }
        },
    }
}

/// Registering the input method, or taking the registration back, under way.
#[derive(Clone, Copy, Debug, PartialEq, Eq, Structural)]
pub struct Registration {
    /// What is to be done next.
    pub step: RegisterStep,
    /// Whether COM was made ready here and has not been released.
    pub com: bool,
}

impl Registration {
    /// Nothing is done yet.
    pub fn begin() -> (r: Registration)
        ensures
            r == (Registration { step: RegisterStep::InitCom, com: false }),
    {
        Registration { step: RegisterStep::InitCom, com: false }
    }

    /// Whether nothing is left to do.
    pub open spec fn ended(self) -> bool {
        self.step == RegisterStep::Done || self.step == RegisterStep::Failed
    }

    /// Whether COM is ready by this registration once its step has come out as `good` tells.
    pub open spec fn holds_com(self, good: bool) -> bool {
        if self.step == RegisterStep::InitCom {
            good
        } else {
            self.com
        }
    }

    /// The registration with `next` to be done, and whether COM is released before: at the end,
    /// where this registration made it ready.
    pub open spec fn moved(self, good: bool, next: RegisterStep) -> (Registration, bool) {
        let over = next == RegisterStep::Done || next == RegisterStep::Failed;
        (
            Registration { step: next, com: self.holds_com(good) && !over },
            self.holds_com(good) && over,
        )
    }

    fn go_on(self, good: bool, next: RegisterStep) -> (r: (Registration, bool))
        ensures
            r == self.moved(good, next),
    {
        let com: bool = if self.step == RegisterStep::InitCom {
            good
        } else {
            self.com
        };
        let over: bool = next == RegisterStep::Done || next == RegisterStep::Failed;
        (Registration { step: next, com: com && !over }, com && over)
    }
}

/// Registers the input method: what is to be done once a step has come out as `good` tells, and
/// whether COM is to be released, now that nothing is left to do.
pub fn register_with_tsf(run: Registration, good: bool) -> (r: (Registration, bool))
    ensures
        r == run.moved(good, register_after(run.step, good)),
{
    run.go_on(good, next_to_register(run.step, good))
}

/// The step of registering that follows.
fn next_to_register(step: RegisterStep, good: bool) -> (r: RegisterStep)
    ensures
        r == register_after(step, good),
{
    match step {
        RegisterStep::InitCom => RegisterStep::CreateProfiles,
        RegisterStep::Done => RegisterStep::Done,
        _ => if !good {
            RegisterStep::Failed
        } else {
            match step {
                RegisterStep::CreateProfiles => RegisterStep::Register,
                RegisterStep::Register => RegisterStep::AddLanguageProfile,
                RegisterStep::AddLanguageProfile => RegisterStep::CreateCategories,
                RegisterStep::CreateCategories => RegisterStep::Category(TipCategory::Keyboard),
                RegisterStep::Category(c) => match next_category(c) {
                    Some(next) => RegisterStep::Category(next),
                    None => RegisterStep::Done,
                },
                _ => RegisterStep::Failed,
            }
        },
    }
}

/// The step of taking the registration back that follows: what is not there to be taken back
/// does not matter, but the two managers have to be had.
pub open spec fn unregister_after(step: RegisterStep, good: bool) -> RegisterStep {
    match step {
        RegisterStep::InitCom => RegisterStep::CreateProfiles,
        RegisterStep::CreateProfiles => if good {
            RegisterStep::RemoveLanguageProfile
        } else {
            RegisterStep::Failed
        },
        RegisterStep::RemoveLanguageProfile => RegisterStep::Unregister,
        RegisterStep::Unregister => RegisterStep::CreateCategories,
        RegisterStep::CreateCategories => if good {
            RegisterStep::Category(TipCategory::Keyboard)
        } else {
            RegisterStep::Failed
        },
        RegisterStep::Category(c) => past_category(c),
        RegisterStep::Done => RegisterStep::Done,
        _ => RegisterStep::Failed,
    }
}

/// Takes the registration back: what is to be done once a step has come out as `good` tells, and
/// whether COM is to be released, now that nothing is left to do.
pub fn unregister_with_tsf(run: Registration, good: bool) -> (r: (Registration, bool))
    ensures
        r == run.moved(good, unregister_after(run.step, good)),
{
    run.go_on(good, next_to_unregister(run.step, good))
}

/// The step of taking the registration back that follows.
fn next_to_unregister(step: RegisterStep, good: bool) -> (r: RegisterStep)
    ensures
        r == unregister_after(step, good),
{
    match step {
        RegisterStep::InitCom => RegisterStep::CreateProfiles,
        RegisterStep::CreateProfiles => if good {
            RegisterStep::RemoveLanguageProfile
        } else {
            RegisterStep::Failed
        },
        RegisterStep::RemoveLanguageProfile => RegisterStep::Unregister,
        RegisterStep::Unregister => RegisterStep::CreateCategories,
        RegisterStep::CreateCategories => if good {
            RegisterStep::Category(TipCategory::Keyboard)
        } else {
            RegisterStep::Failed
        },
        RegisterStep::Category(c) => match next_category(c) {
            Some(next) => RegisterStep::Category(next),
            None => RegisterStep::Done,
        },
        RegisterStep::Done => RegisterStep::Done,
        _ => RegisterStep::Failed,
    }
}

/// The steps of registering, where each goes well.
pub open spec fn registered(n: nat) -> RegisterStep
    decreases n,
{
    if n == 0 {
        RegisterStep::InitCom
    } else {
        register_after(registered((n - 1) as nat), true)
    }
}

/// The steps of taking the registration back, where both managers were had; `good` tells of each
/// other step what came of it.
pub open spec fn unregistered(n: nat, good: spec_fn(nat) -> bool) -> RegisterStep
    decreases n,
{
    if n == 0 {
        RegisterStep::InitCom
    } else {
        let step = unregistered((n - 1) as nat, good);
        unregister_after(
            step,
            step == RegisterStep::CreateProfiles || step == RegisterStep::CreateCategories || good(
                n,
            ),
        )
    }
}

/// Registering announces the input method as everything on the list, in order, and is done
/// then. Taking it back goes through the same list, and whatever is missing does not stop it.
pub proof fn law_all_categories(good: spec_fn(nat) -> bool)
    ensures
        forall|i: int|
            0 <= i < 8 ==> #[trigger] registered((i + 5) as nat) == RegisterStep::Category(
                categories()[i],
            ),
        registered(13) == RegisterStep::Done,
        forall|i: int|
            0 <= i < 8 ==> #[trigger] unregistered((i + 5) as nat, good)
                == RegisterStep::Category(categories()[i]),
        unregistered(13, good) == RegisterStep::Done,
{
    assert forall|i: int| 0 <= i < 8 implies #[trigger] registered((i + 5) as nat)
        == RegisterStep::Category(categories()[i]) by {
        registered_category(i as nat);
    }
    assert forall|i: int| 0 <= i < 8 implies #[trigger] unregistered((i + 5) as nat, good)
        == RegisterStep::Category(categories()[i]) by {
        unregistered_category(i as nat, good);
    }
    registered_category(7);
    unregistered_category(7, good);
}

proof fn registered_category(i: nat)
    requires
        i < 8,
    ensures
        registered(i + 5) == RegisterStep::Category(categories()[i as int]),
    decreases i,
{
    if i == 0 {
        assert(registered(0) == RegisterStep::InitCom);
        assert(registered(1) == RegisterStep::CreateProfiles);
        assert(registered(2) == RegisterStep::Register);
        assert(registered(3) == RegisterStep::AddLanguageProfile);
        assert(registered(4) == RegisterStep::CreateCategories);
    } else {
        registered_category((i - 1) as nat);
    }
}

proof fn unregistered_category(i: nat, good: spec_fn(nat) -> bool)
    requires
        i < 8,
    ensures
        unregistered(i + 5, good) == RegisterStep::Category(categories()[i as int]),
    decreases i,
{
    if i == 0 {
        assert(unregistered(0, good) == RegisterStep::InitCom);
        assert(unregistered(1, good) == RegisterStep::CreateProfiles);
        assert(unregistered(2, good) == RegisterStep::RemoveLanguageProfile);
        assert(unregistered(3, good) == RegisterStep::Unregister);
        assert(unregistered(4, good) == RegisterStep::CreateCategories);
    } else {
        unregistered_category((i - 1) as nat, good);
    }
}

/// Registering (or, with `back`, taking the registration back) after `n` steps, of which each
/// came out as `good` tells.
pub open spec fn run_after(back: bool, n: nat, good: spec_fn(nat) -> bool) -> Registration
    decreases n, 0nat,
{
    if n == 0 {
        Registration { step: RegisterStep::InitCom, com: false }
    } else {
        stepped(back, (n - 1) as nat, good).0
    }
}

/// What the step behind `n` others comes to, and whether COM is released with it.
pub open spec fn stepped(back: bool, n: nat, good: spec_fn(nat) -> bool) -> (Registration, bool)
    decreases n, 1nat,
{
    let run = run_after(back, n, good);
    run.moved(
        good(n),
        if back {
            unregister_after(run.step, good(n))
        } else {
            register_after(run.step, good(n))
        },
    )
}

/// How often COM was released in the first `n` steps.
pub open spec fn releases(back: bool, n: nat, good: spec_fn(nat) -> bool) -> nat
    decreases n,
{
    if n == 0 {
        0
    } else {
        releases(back, (n - 1) as nat, good) + if stepped(back, (n - 1) as nat, good).1 {
            1nat
        } else {
            0nat
        }
    }
}

/// Whatever comes of the steps, thirteen of them end a registration and its taking back. By then
/// COM has been released exactly once where the first step made it ready, and not at all where
/// it did not.
pub proof fn law_com_is_released(back: bool, n: nat, good: spec_fn(nat) -> bool)
    requires
        n >= 13,
    ensures
        run_after(back, n, good).ended(),
        !run_after(back, n, good).com,
        releases(back, n, good) == if good(0) {
            1nat
        } else {
            0nat
        },
{
    run_so_far(back, n, good);
}

/// How many steps lie before one.
spec fn steps_before(step: RegisterStep) -> nat {
    match step {
        RegisterStep::InitCom => 0,
        RegisterStep::CreateProfiles => 1,
        RegisterStep::Register => 2,
        RegisterStep::RemoveLanguageProfile => 2,
        RegisterStep::AddLanguageProfile => 3,
        RegisterStep::Unregister => 3,
        RegisterStep::CreateCategories => 4,
        RegisterStep::Category(c) => match c {
            TipCategory::Keyboard => 5,
            TipCategory::ImmersiveSupport => 6,
            TipCategory::InputModeCompartment => 7,
            TipCategory::SysTraySupport => 8,
            TipCategory::DisplayAttributeProvider => 9,
            TipCategory::Comless => 10,
            TipCategory::UiElementEnabled => 11,
            TipCategory::CategoryOfTip => 12,
        },
        _ => 13,
    }
}

proof fn run_so_far(back: bool, n: nat, good: spec_fn(nat) -> bool)
    ensures
        ({
            let run = run_after(back, n, good);
            if run.ended() {
                &&& !run.com
                &&& releases(back, n, good) == if good(0) {
                    1nat
                } else {
                    0nat
                }
            } else {
                &&& steps_before(run.step) == n
                &&& run.com == (n > 0 && good(0))
                &&& releases(back, n, good) == 0
            }
        }),
    decreases n,
{
    if n > 0 {
        run_so_far(back, (n - 1) as nat, good);
    }
}

/// What the system is told of the language for which the input method is there.
#[derive(Debug, PartialEq, Eq)]
pub struct LanguageProfile {
    pub class: u128,
    pub language: u16,
    pub profile: u128,
    /// The name, in UTF-16 with a 0 behind it.
    pub description: Vec<u16>,
    /// The file that holds the icon, in UTF-16 with a 0 behind it.
    pub icon: Vec<u16>,
    /// Which of the icons of the file it is. The system finds none by a negative number.
    pub icon_index: u32,
}

/// What the step `AddLanguageProfile` tells the system; the icon is the first of the library
/// itself, `dll`.
pub fn language_profile(dll: &str) -> (r: LanguageProfile)
    ensures
        r.class == hex_value(unbraced(CLSID_TEXT_SERVICE@)),
        r.language == LANGID_ZH_CN,
        r.profile == hex_value(unbraced(PROFILE_GUID@)),
        r.description@ == text::utf16(PROFILE_DESCRIPTION@).push(0),
        r.icon@ == text::utf16(dll@).push(0),
        r.icon_index == 0,
{
    LanguageProfile {
        class: clsid(),
        language: LANGID_ZH_CN,
        profile: profile_guid(),
        description: nul_ended(PROFILE_DESCRIPTION),
        icon: nul_ended(dll),
        icon_index: 0,
    }
}

/// A value in the registry: the key below the class of the input method, the name of the value
/// and what it holds.
#[derive(Debug, PartialEq, Eq)]
pub struct RegistryValue {
    /// The key, below the classes.
    pub key: String,
    pub name: String,
    pub data: String,
}

impl RegistryValue {
    /// Whether the value has the given key, name and data.
    pub open spec fn is(self, key: Seq<char>, name: Seq<char>, data: Seq<char>) -> bool {
        self.key@ == key && self.name@ == name && self.data@ == data
    }
}

/// The values that tell the system where the class is: its name, the library that holds it and
/// how it may be called.
pub fn clsid_registry(dll: &str) -> (r: Vec<RegistryValue>)
    ensures
        r@.len() == 3,
        r@[0].is(CLSID_REG_KEY@, ""@, PROFILE_DESCRIPTION@),
        r@[1].is(CLSID_REG_KEY@ + "\\InprocServer32"@, ""@, dll@),
        r@[2].is(CLSID_REG_KEY@ + "\\InprocServer32"@, "ThreadingModel"@, "Apartment"@),
{
    let mut out: Vec<RegistryValue> = Vec::new();
    out.push(
        RegistryValue {
            key: CLSID_REG_KEY.to_owned(),
            name: "".to_owned(),
            data: PROFILE_DESCRIPTION.to_owned(),
        },
    );
    out.push(
        RegistryValue {
            key: join2(CLSID_REG_KEY, "\\InprocServer32"),
            name: "".to_owned(),
            data: dll.to_owned(),
        },
    );
    out.push(
        RegistryValue {
            key: join2(CLSID_REG_KEY, "\\InprocServer32"),
            name: "ThreadingModel".to_owned(),
            data: "Apartment".to_owned(),
        },
    );
    out
}

/// What came of a registration.
#[derive(Clone, Copy, Debug, PartialEq, Eq, Structural)]
pub enum ServerResult {
    Good,
    /// The library does not know where it is.
    NoPath,
    /// The registry could not be written.
    RegistryFailed,
    /// The system refused.
    SystemFailed,
}

/// What registering comes to: the registry is written first, and the system asked only then.
pub fn dll_register_server(dll: &str, written: bool, end: RegisterStep) -> (r: ServerResult)
    ensures
        r == (if dll@.len() == 0 {
            ServerResult::NoPath
        } else if !written {
            ServerResult::RegistryFailed
        } else if end == RegisterStep::Done {
            ServerResult::Good
        } else {
            ServerResult::SystemFailed
        }),
{
    if dll.is_empty() {
        ServerResult::NoPath
    } else if !written {
        ServerResult::RegistryFailed
    } else if end == RegisterStep::Done {
        ServerResult::Good
    } else {
        ServerResult::SystemFailed
    }
}

/// Whether the key of the class is to be taken out of the registry: where the system has taken
/// its part back.
pub fn dll_unregister_server(end: RegisterStep) -> (r: bool)
    ensures
        r == (end == RegisterStep::Done),
{
    end == RegisterStep::Done
}

/// What is answered to a request for a class.
#[derive(Clone, Copy, Debug, PartialEq, Eq, Structural)]
pub enum ClassReply {
    InvalidArgument,
    NotAvailable,
    /// The factory of the input method.
    Factory,
}

/// Answers a request for a class; there is only that of the input method. `class` is `None` where
/// the caller gave no valid places.
pub fn dll_get_class_object(class: Option<u128>) -> (r: ClassReply)
    ensures
        r == (match class {
            None => ClassReply::InvalidArgument,
            Some(c) => if c == hex_value(unbraced(CLSID_TEXT_SERVICE@)) {
                ClassReply::Factory
            } else {
                ClassReply::NotAvailable
            },
        }),
{
    match class {
        None => ClassReply::InvalidArgument,
        Some(c) => if c == clsid() {
            ClassReply::Factory
        } else {
            ClassReply::NotAvailable
        },
    }
}

/// The sixteen digits, the letters among them large or small, and nothing else.
pub proof fn law_hex_digits(d: int, c: char)
    ensures
        0 <= d < 10 ==> is_hex((0x30 + d) as char) && hex_digit((0x30 + d) as char) == d,
        10 <= d < 16 ==> is_hex((0x41 + d - 10) as char) && hex_digit((0x41 + d - 10) as char) == d,
        10 <= d < 16 ==> is_hex((0x61 + d - 10) as char) && hex_digit((0x61 + d - 10) as char) == d,
        is_hex(c) ==> 0 <= hex_digit(c) < 16,
        !is_hex('-') && !is_hex('{') && !is_hex('}'),
{
}

/// A digit behind a text moves what is there up by one place; a hyphen changes nothing.
pub proof fn law_hex_places(t: Seq<char>, c: char)
    ensures
        hex_value(Seq::empty()) == 0,
        is_hex(c) ==> hex_value(t.push(c)) == 16 * hex_value(t) + hex_digit(c),
        !is_hex(c) ==> hex_value(t.push(c)) == hex_value(t),
{
    assert(t.push(c).drop_last() =~= t);
}

/// Registering: each step comes after the one that it builds on, and only where that went well.
/// The language profile is added, never taken out.
pub proof fn law_registering_builds_up(step: RegisterStep, good: bool)
    requires
        step != RegisterStep::Done,
        step != RegisterStep::Failed,
    ensures
        ({
            let next = register_after(step, good);
            &&& next == RegisterStep::CreateProfiles <==> step == RegisterStep::InitCom
            &&& next == RegisterStep::Register <==> step == RegisterStep::CreateProfiles && good
            &&& next == RegisterStep::AddLanguageProfile <==> step == RegisterStep::Register
                && good
            &&& next == RegisterStep::CreateCategories <==> step
                == RegisterStep::AddLanguageProfile && good
            &&& next == RegisterStep::Category(TipCategory::Keyboard) <==> step
                == RegisterStep::CreateCategories && good
            &&& next is Category ==> good && (step is Category || step
                == RegisterStep::CreateCategories)
            &&& next == RegisterStep::Done ==> good && step == RegisterStep::Category(
                TipCategory::CategoryOfTip,
            )
            &&& next != RegisterStep::RemoveLanguageProfile
            &&& next != RegisterStep::Unregister
            &&& next != RegisterStep::InitCom
            &&& !good && step != RegisterStep::InitCom ==> next == RegisterStep::Failed
            &&& good && (step == RegisterStep::CreateProfiles || step == RegisterStep::Register
                || step == RegisterStep::AddLanguageProfile || step
                == RegisterStep::CreateCategories || step is Category) ==> next
                != RegisterStep::Failed
        }),
{
}

/// Taking the registration back: the language profile is taken out, then the service, then every
/// category, and what cannot be taken out does not stop the rest. Only where there is nothing to
/// ask is it given up. Nothing is registered on the way.
pub proof fn law_unregistering_goes_on(step: RegisterStep, good: bool)
    requires
        step != RegisterStep::Done,
        step != RegisterStep::Failed,
        step != RegisterStep::Register,
        step != RegisterStep::AddLanguageProfile,
    ensures
        ({
            let next = unregister_after(step, good);
            &&& next == RegisterStep::CreateProfiles <==> step == RegisterStep::InitCom
            &&& next == RegisterStep::RemoveLanguageProfile <==> step
                == RegisterStep::CreateProfiles && good
            &&& next == RegisterStep::Unregister <==> step == RegisterStep::RemoveLanguageProfile
            &&& next == RegisterStep::CreateCategories <==> step == RegisterStep::Unregister
            &&& next == RegisterStep::Category(TipCategory::Keyboard) <==> step
                == RegisterStep::CreateCategories && good
            &&& next == RegisterStep::Failed <==> !good && (step == RegisterStep::CreateProfiles
                || step == RegisterStep::CreateCategories)
            &&& next == RegisterStep::Done ==> step == RegisterStep::Category(
                TipCategory::CategoryOfTip,
            )
            &&& next != RegisterStep::Register
            &&& next != RegisterStep::AddLanguageProfile
            &&& next != RegisterStep::InitCom
        }),
{
}

/// A run goes to the step that it is told, and gives the COM library back exactly where it holds
/// it and is over.
pub proof fn law_run_moves(run: Registration, good: bool, next: RegisterStep)
    ensures
        ({
            let (to, release) = run.moved(good, next);
            let had = if run.step == RegisterStep::InitCom {
                good
            } else {
                run.com
            };
            &&& to.step == next
            &&& to.ended() <==> next == RegisterStep::Done || next == RegisterStep::Failed
            &&& release <==> had && to.ended()
            &&& to.com <==> had && !to.ended()
        }),
{
}

/// A GUID has thirty-six signs: digits, but for hyphens behind the eighth digit and then behind
/// every fourth up to the twentieth.
pub proof fn law_guid_shape(t: Seq<char>, i: int)
    requires
        is_guid(t),
    ensures
        t.len() == 36,
        t[8] == '-' && t[13] == '-' && t[18] == '-' && t[23] == '-',
        0 <= i < 36 && i != 8 && i != 13 && i != 18 && i != 23 ==> is_hex(t[i]),
{
}

/// What is done or has failed stays so.
pub proof fn law_registration_over(good: bool)
    ensures
        register_after(RegisterStep::Done, good) == RegisterStep::Done,
        register_after(RegisterStep::Failed, good) == RegisterStep::Failed,
        unregister_after(RegisterStep::Done, good) == RegisterStep::Done,
        unregister_after(RegisterStep::Failed, good) == RegisterStep::Failed,
{
}

} // verus!
