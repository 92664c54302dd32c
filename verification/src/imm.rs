//! The input method as programs of the old kind know it.

use vstd::prelude::*;

use std::collections::HashMap;

verus! {

broadcast use vstd::std_specs::hash::group_hash_axioms;

/// What an input method of the old kind tells of itself.
#[derive(Clone, Copy, Debug, PartialEq, Eq, Structural)]
pub struct IMEINFO {
    pub dw_private_data_size: u32,
    pub fdw_property: u32,
    pub fdw_conversion_caps: u32,
    pub fdw_sentence_caps: u32,
    pub fdw_ui_caps: u32,
    pub fdw_scs_caps: u32,
    pub fdw_select_caps: u32,
    pub fdw_ignore: u32,
}

impl Default for IMEINFO {
    fn default() -> (r: IMEINFO)
        ensures
            r == (IMEINFO {
                dw_private_data_size: 0,
                fdw_property: 0,
                fdw_conversion_caps: 0,
                fdw_sentence_caps: 0,
                fdw_ui_caps: 0,
                fdw_scs_caps: 0,
                fdw_select_caps: 0,
                fdw_ignore: 0,
            }),
    {
        IMEINFO {
            dw_private_data_size: 0,
            fdw_property: 0,
            fdw_conversion_caps: 0,
            fdw_sentence_caps: 0,
            fdw_ui_caps: 0,
            fdw_scs_caps: 0,
            fdw_select_caps: 0,
            fdw_ignore: 0,
        }
    }
}

/// It takes Unicode.
pub const IME_PROP_UNICODE: u32 = 0x0000_0080;

/// It draws its own windows.
pub const IME_PROP_SPECIAL_UI: u32 = 0x0002_0000;

/// It can type Chinese.
pub const IME_CMODE_NATIVE: u32 = 0x0002;

/// It can type in full width.
pub const IME_CMODE_FULLSHAPE: u32 = 0x0100;

/// Its windows can be turned by any multiple of a quarter.
pub const UI_CAP_2700: u32 = 0x0000_0010;

/// It hands on whether Chinese is typed.
pub const SELECT_CAP_CONVERSION: u32 = 0x0000_0001;

/// The name of the class of its windows, with a 0 behind it.
pub const UI_CLASS: [u16; 11] = [
    0x49, 0x75, 0x76, 0x55, 0x49, 0x43, 0x6C, 0x61, 0x73, 0x73, 0,
];

/// Tells what the input method is: the answer, and what is written into the two places that the
/// caller gives. Where one of them is missing, the answer is 0 and nothing is written. The last
/// field is left as it was.
pub fn ime_inquire(info: Option<IMEINFO>, class_given: bool) -> (r: (i32, Option<IMEINFO>, Option<
    [u16; 11],
>))
    ensures
        info is None || !class_given ==> r.0 == 0 && r.1 is None && r.2 is None,
        info is Some && class_given ==> {
            &&& r.0 == 1
            &&& r.1 == Some(
                IMEINFO {
                    dw_private_data_size: 0,
                    fdw_property: 0x0002_0080,
                    fdw_conversion_caps: 0x0102,
                    fdw_sentence_caps: 0,
                    fdw_ui_caps: 0x10,
                    fdw_scs_caps: 0,
                    fdw_select_caps: 0x1,
                    fdw_ignore: info->0.fdw_ignore,
                },
            )
            &&& r.2 == Some(UI_CLASS)
        },
{
    match info {
        Some(old_info) => if class_given {
            assert(IME_PROP_UNICODE | IME_PROP_SPECIAL_UI == 0x0002_0080) by (bit_vector);
            assert(IME_CMODE_FULLSHAPE | IME_CMODE_NATIVE == 0x0102) by (bit_vector);
            let told: IMEINFO = IMEINFO {
                dw_private_data_size: 0,
                fdw_property: IME_PROP_UNICODE | IME_PROP_SPECIAL_UI,
                fdw_conversion_caps: IME_CMODE_FULLSHAPE | IME_CMODE_NATIVE,
                fdw_sentence_caps: 0,
                fdw_ui_caps: UI_CAP_2700,
                fdw_scs_caps: 0,
                fdw_select_caps: SELECT_CAP_CONVERSION,
                fdw_ignore: old_info.fdw_ignore,
            };
            (1, Some(told), Some(UI_CLASS))
        } else {
            (0, None, None)
        },
        None => (0, None, None),
    }
}

/// The instances, by the input context that each belongs to.
pub struct Instances {
    ids: HashMap<u64, u64>,
    next: u64,
}

/// The instances as they are seen.
#[verifier::ext_equal]
pub ghost struct InstancesModel {
    pub ids: Map<u64, u64>,
    /// The number of the next one.
    pub next: u64,
}

impl View for Instances {
    type V = InstancesModel;

    closed spec fn view(&self) -> InstancesModel {
        InstancesModel { ids: self.ids@, next: self.next }
    }
}

impl InstancesModel {
    /// Every number is below the next one, and no two contexts have the same.
    pub open spec fn wf(self) -> bool {
        &&& forall|c: u64|
            self.ids.contains_key(c) ==> #[trigger] self.ids[c] < self.next
        &&& forall|c: u64, d: u64|
            self.ids.contains_key(c) && self.ids.contains_key(d) && c != d
                ==> #[trigger] self.ids[c] != #[trigger] self.ids[d]
    }

    /// The instances after a context came in.
    pub open spec fn entered(self, context: u64) -> InstancesModel {
        if self.ids.contains_key(context) {
            self
        } else {
            InstancesModel {
                ids: self.ids.insert(context, self.next),
                next: (self.next + 1) as u64,
            }
        }
    }

    /// The instances after a context went.
    pub open spec fn left(self, context: u64) -> InstancesModel {
        InstancesModel { ids: self.ids.remove(context), ..self }
    }
}

impl Instances {
    /// No instance.
    pub fn new() -> (r: Instances)
        ensures
            r@ == (InstancesModel { ids: Map::empty(), next: 1 }),
            r@.wf(),
    {
        let r: Instances = Instances { ids: HashMap::new(), next: 1 };
        assert(r@.ids =~= Map::empty());
        r
    }

    /// The number of the instance of a context, which is made where there is none.
    pub fn instance_enter(&mut self, context: u64) -> (r: u64)
        requires
            old(self)@.wf(),
            old(self)@.next < u64::MAX,
        ensures
            final(self)@ == old(self)@.entered(context),
            final(self)@.wf(),
            r == final(self)@.ids[context],
    {
        if let Some(id) = self.ids.get(&context) {
            return *id;
        }
        let id: u64 = self.next;
        self.next = id + 1;
        self.ids.insert(context, id);
        id
    }

    /// Takes the instance of a context away; gives its number, if there was one.
    pub fn instance_leave(&mut self, context: u64) -> (r: Option<u64>)
        requires
            old(self)@.wf(),
        ensures
            final(self)@ == old(self)@.left(context),
            final(self)@.wf(),
            r == (if old(self)@.ids.contains_key(context) {
                Some(old(self)@.ids[context])
            } else {
                None::<u64>
            }),
    {
        let r: Option<u64> = self.ids.remove(&context);
        assert(self@.ids =~= old(self)@.ids.remove(context));
        r
    }

    /// The input method was chosen for a context, or another one was.
    pub fn ime_select(&mut self, context: u64, selected: bool) -> (r: i32)
        requires
            old(self)@.wf(),
            old(self)@.next < u64::MAX,
        ensures
            r == 1,
            final(self)@.wf(),
            final(self)@ == (if selected {
                old(self)@.entered(context)
            } else {
                old(self)@.left(context)
            }),
    {
        if selected {
            let _ = self.instance_enter(context);
        } else {
            let _ = self.instance_leave(context);
        }
        1
    }

    /// A key was pressed in a context: it goes to the program.
    pub fn ime_process_key(&mut self, context: u64) -> (r: i32)
        requires
            old(self)@.wf(),
            old(self)@.next < u64::MAX,
        ensures
            r == 0,
            final(self)@.wf(),
            final(self)@ == old(self)@.entered(context),
    {
        let _ = self.instance_enter(context);
        0
    }

    /// A context has gained or lost the focus.
    pub fn ime_set_active_context(&mut self, context: u64) -> (r: i32)
        requires
            old(self)@.wf(),
            old(self)@.next < u64::MAX,
        ensures
            r == 1,
            final(self)@.wf(),
            final(self)@ == old(self)@.entered(context),
    {
        let _ = self.instance_enter(context);
        1
    }
}

/// A context that comes in again keeps its number; one that went and comes back gets a new one.
pub proof fn law_numbers_not_reused(m: InstancesModel, context: u64)
    requires
        m.wf(),
        m.next < u64::MAX,
    ensures
        m.entered(context).entered(context) == m.entered(context),
        m.ids.contains_key(context) ==> m.left(context).entered(context).ids[context]
            > m.ids[context],
{
}

/// Entering gives a context that is new the next number, which no other has, and a known one the
/// number that it has; leaving takes away that of this context alone. The others keep theirs.
pub proof fn law_entering_and_leaving(m: InstancesModel, context: u64, other: u64)
    requires
        m.wf(),
        m.next < u64::MAX,
        other != context,
    ensures
        ({
            let e = m.entered(context);
            let l = m.left(context);
            &&& e.ids.contains_key(context)
            &&& m.ids.contains_key(context) ==> e == m
            &&& !m.ids.contains_key(context) ==> e.ids[context] == m.next && e.next == m.next + 1
            &&& e.ids.contains_key(other) == m.ids.contains_key(other)
            &&& m.ids.contains_key(other) ==> e.ids[other] == m.ids[other]
            &&& !l.ids.contains_key(context)
            &&& l.ids.contains_key(other) == m.ids.contains_key(other)
            &&& m.ids.contains_key(other) ==> l.ids[other] == m.ids[other]
            &&& l.next == m.next
        }),
{
}

} // verus!
