//! The table of instances: which threads of which programs run the input method, with which
//! switches, and which of them the toolbar stands for.

use vstd::prelude::*;

use std::collections::HashMap;

use crate::ime;
use crate::ime::ImeState;
use crate::toolbar::prefs::ToolbarPref;

verus! {

broadcast use vstd::std_specs::hash::group_hash_axioms;

/// An instance in the table.
#[derive(Clone, Copy, Debug, PartialEq, Eq, Structural)]
pub struct ToolbarInstance {
    pub state: ImeState,
    pub active: bool,
}

/// The table as it is seen: instances by process and thread, the one that the toolbar is bound
/// to, the preference whether it shows, and its remembered place.
#[verifier::ext_equal]
pub struct BoardModel {
    pub instances: Map<(u32, u32), ToolbarInstance>,
    pub focused: Option<(u32, u32)>,
    pub visible: bool,
    pub pos: Option<(i32, i32)>,
}

impl BoardModel {
    /// The switches of the bound instance; the default ones without one.
    pub open spec fn focused_state(self) -> ImeState {
        match self.focused {
            Some(id) => self.state_of(id),
            None => ime::default_state(),
        }
    }

    /// The switches of an instance; the default ones where it is not in the table.
    pub open spec fn state_of(self, id: (u32, u32)) -> ImeState {
        if self.instances.contains_key(id) {
            self.instances[id].state
        } else {
            ime::default_state()
        }
    }

    /// The table with an instance put in.
    pub open spec fn with_instance(self, id: (u32, u32), i: ToolbarInstance) -> BoardModel {
        BoardModel { instances: self.instances.insert(id, i), ..self }
    }

    /// The table with the switches of an instance replaced, if it is in the table.
    pub open spec fn with_state(self, id: (u32, u32), state: ImeState) -> BoardModel {
        if self.instances.contains_key(id) {
            self.with_instance(id, ToolbarInstance { state, ..self.instances[id] })
        } else {
            self
        }
    }

    /// The table with an instance marked, if it is in the table.
    pub open spec fn with_active(self, id: (u32, u32), active: bool) -> BoardModel {
        if self.instances.contains_key(id) {
            self.with_instance(id, ToolbarInstance { active, ..self.instances[id] })
        } else {
            self
        }
    }

    /// Whether the toolbar is bound to an instance that is active.
    pub open spec fn bound_active(self) -> bool {
        self.focused matches Some(id) && self.instances.contains_key(id)
            && self.instances[id].active
    }
}

/// The number under which the instance of a process and thread is kept.
pub open spec fn instance_key(id: (u32, u32)) -> u64 {
    (id.0 * 0x1_0000_0000 + id.1) as u64
}

fn key_of(pid: u32, tid: u32) -> (r: u64)
    ensures
        r == instance_key((pid, tid)),
{
    pid as u64 * 0x1_0000_0000 + tid as u64
}

/// The table of instances.
pub struct Board {
    table: HashMap<u64, ToolbarInstance>,
    focused: Option<(u32, u32)>,
    visible: bool,
    pos: Option<(i32, i32)>,
}

impl View for Board {
    type V = BoardModel;

    closed spec fn view(&self) -> BoardModel {
        BoardModel {
            instances: Map::new(
                |id: (u32, u32)| self.table@.contains_key(instance_key(id)),
                |id: (u32, u32)| self.table@[instance_key(id)],
            ),
            focused: self.focused,
            visible: self.visible,
            pos: self.pos,
        }
    }
}

impl Board {
    /// An empty table, with what was remembered.
    pub fn new(pref: ToolbarPref) -> (r: Board)
        ensures
            r@ == (BoardModel {
                instances: Map::<(u32, u32), ToolbarInstance>::empty(),
                focused: None,
                visible: pref.visible,
                pos: pref.pos,
            }),
    {
        let r = Board { table: HashMap::new(), focused: None, visible: pref.visible, pos: pref.pos };
        assert(r@.instances =~= Map::empty());
        r
    }

    /// The bound instance.
    pub fn focused(&self) -> (r: Option<(u32, u32)>)
        ensures
            r == self@.focused,
    {
        self.focused
    }

    /// The preference whether the toolbar shows.
    pub fn visible(&self) -> (r: bool)
        ensures
            r == self@.visible,
    {
        self.visible
    }

    /// The remembered place.
    pub fn pos(&self) -> (r: Option<(i32, i32)>)
        ensures
            r == self@.pos,
    {
        self.pos
    }

    /// The entry of an instance.
    pub fn instance(&self, pid: u32, tid: u32) -> (r: Option<ToolbarInstance>)
        ensures
            r is Some <==> self@.instances.contains_key((pid, tid)),
            r matches Some(i) ==> i == self@.instances[(pid, tid)],
    {
        match self.table.get(&key_of(pid, tid)) {
            Some(i) => Some(*i),
            None => None,
        }
    }

    /// Binds the toolbar to an instance, or to none.
    pub fn bind(&mut self, id: Option<(u32, u32)>)
        ensures
            final(self)@ == (BoardModel { focused: id, ..old(self)@ }),
    {
        self.focused = id;
        assert(self@.instances =~= old(self)@.instances);
    }

    /// Sets the preference whether the toolbar shows.
    pub fn set_visible(&mut self, visible: bool)
        ensures
            final(self)@ == (BoardModel { visible, ..old(self)@ }),
    {
        self.visible = visible;
        assert(self@.instances =~= old(self)@.instances);
    }

    /// Remembers a place.
    pub fn set_pos(&mut self, pos: Option<(i32, i32)>)
        ensures
            final(self)@ == (BoardModel { pos, ..old(self)@ }),
    {
        self.pos = pos;
        assert(self@.instances =~= old(self)@.instances);
    }

    /// Puts an instance into the table.
    pub fn put(&mut self, pid: u32, tid: u32, i: ToolbarInstance)
        ensures
            final(self)@ == old(self)@.with_instance((pid, tid), i),
    {
        self.table.insert(key_of(pid, tid), i);
        assert(self@.instances =~= old(self)@.instances.insert((pid, tid), i));
    }

    /// Takes an instance out of the table.
    pub fn drop_instance(&mut self, pid: u32, tid: u32)
        ensures
            final(self)@ == (BoardModel {
                instances: old(self)@.instances.remove((pid, tid)),
                ..old(self)@
            }),
    {
        self.table.remove(&key_of(pid, tid));
        assert(self@.instances =~= old(self)@.instances.remove((pid, tid)));
    }

    /// Replaces the switches of an instance, if it is in the table.
    pub fn set_state(&mut self, pid: u32, tid: u32, state: ImeState)
        ensures
            final(self)@ == old(self)@.with_state((pid, tid), state),
    {
        if let Some(i) = self.instance(pid, tid) {
            self.put(pid, tid, ToolbarInstance { state, active: i.active });
        }
    }

    /// Marks an instance as active or not, if it is in the table.
    pub fn set_active(&mut self, pid: u32, tid: u32, active: bool)
        ensures
            final(self)@ == old(self)@.with_active((pid, tid), active),
    {
        if let Some(i) = self.instance(pid, tid) {
            self.put(pid, tid, ToolbarInstance { state: i.state, active });
        }
    }

    /// The switches of an instance; the default ones where it is not in the table.
    pub fn state_of(&self, pid: u32, tid: u32) -> (r: ImeState)
        ensures
            r == self@.state_of((pid, tid)),
    {
        match self.instance(pid, tid) {
            Some(i) => i.state,
            None => ImeState::default(),
        }
    }

    /// The switches of the bound instance; the default ones without one.
    pub fn focused_state(&self) -> (r: ImeState)
        ensures
            r == self@.focused_state(),
    {
        match self.focused {
            Some((pid, tid)) => self.state_of(pid, tid),
            None => ImeState::default(),
        }
    }

    /// Whether the toolbar is bound to an instance that is active.
    pub fn bound_active(&self) -> (r: bool)
        ensures
            r == self@.bound_active(),
    {
        match self.focused {
            Some((pid, tid)) => match self.instance(pid, tid) {
                Some(i) => i.active,
                None => false,
            },
            None => false,
        }
    }
}

/// Putting in, replacing the switches and marking concern one instance; the bound one and what is
/// remembered stay. The switches of an instance that is not there are the default ones.
pub proof fn law_table_entries(
    b: BoardModel,
    id: (u32, u32),
    i: ToolbarInstance,
    state: ImeState,
    active: bool,
    other: (u32, u32),
)
    requires
        other != id,
    ensures
        b.with_instance(id, i).instances.contains_key(id),
        b.with_instance(id, i).instances[id] == i,
        b.with_instance(id, i).state_of(id) == i.state,
        b.with_instance(id, i).state_of(other) == b.state_of(other),
        b.with_instance(id, i).focused == b.focused,
        b.with_instance(id, i).visible == b.visible,
        b.with_instance(id, i).pos == b.pos,
        b.instances.contains_key(id) ==> b.with_state(id, state).state_of(id) == state,
        b.instances.contains_key(id) ==> b.with_state(id, state).instances[id].active
            == b.instances[id].active,
        b.instances.contains_key(id) ==> b.with_active(id, active).instances[id].active == active,
        b.with_active(id, active).state_of(id) == b.state_of(id),
        b.with_state(id, state).state_of(other) == b.state_of(other),
        !b.instances.contains_key(id) ==> b.with_state(id, state) == b && b.with_active(id, active)
            == b,
        !b.instances.contains_key(id) ==> b.state_of(id) == ime::default_state(),
        b.focused is None ==> b.focused_state() == ime::default_state(),
        b.focused == Some(id) ==> b.focused_state() == b.state_of(id),
{
}

/// No two instances are kept under the same number.
pub proof fn law_instance_keys(a: (u32, u32), b: (u32, u32))
    ensures
        instance_key(a) == instance_key(b) ==> a == b,
{
}

} // verus!
