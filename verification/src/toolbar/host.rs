//! The host of the toolbar: the queue between the threads that report and the one that shows.

use vstd::prelude::*;

use std::collections::VecDeque;

use crate::toolbar::prefs::ToolbarPref;
use crate::toolbar::window;
use crate::toolbar::window::{BarEvent, ToolbarWindow};
use crate::wire::{Request, ToolbarSignal};

verus! {

/// The toolbar with its queue.
pub struct ToolbarHost {
    pub bar: ToolbarWindow,
    /// What was reported and is not worked off yet, oldest first.
    pub pending: VecDeque<BarEvent>,
    /// The window, once it exists; 0 before.
    pub hwnd: usize,
    /// The thread of the window, once it exists; 0 before.
    pub thread_id: u32,
}

/// The event that a signal stands for.
pub open spec fn event_of(sig: ToolbarSignal) -> BarEvent {
    match sig {
        ToolbarSignal::FocusGained { pid, tid, state } => BarEvent::FocusGained {
            pid,
            tid,
            state,
        },
        ToolbarSignal::FocusLost { pid, tid } => BarEvent::FocusLost { pid, tid },
        ToolbarSignal::StateChanged { pid, tid, state } => BarEvent::StateChanged {
            pid,
            tid,
            state,
        },
    }
}

impl ToolbarHost {
    /// A host whose window does not exist yet, with what was remembered.
    pub fn spawn(pref: ToolbarPref) -> (r: ToolbarHost)
        ensures
            r.pending@ == Seq::<BarEvent>::empty(),
            r.hwnd == 0,
            r.thread_id == 0,
            r.bar@ == window::fresh_window(pref),
            r.bar@.wf(),
            r.bar@.pref() == pref,
    {
        ToolbarHost {
            bar: ToolbarWindow::new(pref),
            pending: VecDeque::new(),
            hwnd: 0,
            thread_id: 0,
        }
    }

    /// Whether the toolbar is meant to show.
    pub fn visible(&self) -> (r: bool)
        ensures
            r == self.bar@.board.visible,
    {
        self.bar.board.visible()
    }

    /// Takes a request of the menu: only turning the toolbar on or off is for the toolbar, and
    /// goes into the queue. Says whether it was taken.
    pub fn handle_request(&mut self, req: &Request) -> (taken: bool)
        ensures
            taken == (*req is ToggleToolbar),
            final(self).pending@ == if taken {
                old(self).pending@.push(BarEvent::ToggleVisible)
            } else {
                old(self).pending@
            },
            final(self).bar == old(self).bar,
            final(self).hwnd == old(self).hwnd,
            final(self).thread_id == old(self).thread_id,
    {
        match req {
            Request::ToggleToolbar => {
                self.enqueue(BarEvent::ToggleVisible);
                true
            },
            _ => false,
        }
    }

    /// Takes a signal of an instance into the queue.
    pub fn handle_signal(&mut self, sig: &ToolbarSignal)
        ensures
            final(self).pending@ == old(self).pending@.push(event_of(*sig)),
            final(self).bar == old(self).bar,
            final(self).hwnd == old(self).hwnd,
            final(self).thread_id == old(self).thread_id,
    {
        let ev: BarEvent = match *sig {
            ToolbarSignal::FocusGained { pid, tid, state } => BarEvent::FocusGained {
                pid,
                tid,
                state,
            },
            ToolbarSignal::FocusLost { pid, tid } => BarEvent::FocusLost { pid, tid },
            ToolbarSignal::StateChanged { pid, tid, state } => BarEvent::StateChanged {
                pid,
                tid,
                state,
            },
        };
        self.enqueue(ev);
    }

    /// Reports that the shortcuts were saved anew.
    pub fn hotkeys_changed(&mut self)
        ensures
            final(self).pending@ == old(self).pending@.push(BarEvent::HotkeysChanged),
            final(self).bar == old(self).bar,
            final(self).hwnd == old(self).hwnd,
            final(self).thread_id == old(self).thread_id,
    {
        self.enqueue(BarEvent::HotkeysChanged);
    }

    fn enqueue(&mut self, ev: BarEvent)
        ensures
            final(self).pending@ == old(self).pending@.push(ev),
            final(self).bar == old(self).bar,
            final(self).hwnd == old(self).hwnd,
            final(self).thread_id == old(self).thread_id,
    {
        self.pending.push_back(ev);
    }

    /// The window to post the refresh message to; none before it exists.
    pub fn wake(&self) -> (r: Option<usize>)
        ensures
            r == if self.hwnd == 0 {
                None::<usize>
            } else {
                Some(self.hwnd)
            },
    {
        if self.hwnd == 0 {
            None
        } else {
            Some(self.hwnd)
        }
    }

    /// The thread to tell to end; none before it exists.
    pub fn shutdown(&self) -> (r: Option<u32>)
        ensures
            r == if self.thread_id == 0 {
                None::<u32>
            } else {
                Some(self.thread_id)
            },
    {
        if self.thread_id == 0 {
            None
        } else {
            Some(self.thread_id)
        }
    }
}

/// A signal becomes the event of its kind, for the same instance and with the same switches.
pub proof fn law_signals_become_events(pid: u32, tid: u32, state: crate::ime::ImeState)
    ensures
        event_of(ToolbarSignal::FocusGained { pid, tid, state }) == (BarEvent::FocusGained {
            pid,
            tid,
            state,
        }),
        event_of(ToolbarSignal::FocusLost { pid, tid }) == (BarEvent::FocusLost { pid, tid }),
        event_of(ToolbarSignal::StateChanged { pid, tid, state }) == (BarEvent::StateChanged {
            pid,
            tid,
            state,
        }),
{
}

/// From a signal to the screen: an instance that reports the focus is bound once the queue is
/// worked off, with the switches that it reported, and one that reports losing it is not.
pub proof fn law_signal_binds(
    m: window::WindowModel,
    pid: u32,
    tid: u32,
    state: crate::ime::ImeState,
    ready: bool,
)
    ensures
        ({
            let gained = event_of(ToolbarSignal::FocusGained { pid, tid, state });
            let lost = event_of(ToolbarSignal::FocusLost { pid, tid });
            let n = window::after_events(m, seq![gained], false, ready);
            let o = window::after_events(m, seq![gained, lost], false, ready);
            &&& n.board.focused == Some((pid, tid))
            &&& n.board.focused_state() == state
            &&& m.board.visible && ready ==> n.shown
            &&& o.board.focused is None
            &&& !o.shown
        }),
{
    let gained = event_of(ToolbarSignal::FocusGained { pid, tid, state });
    let lost = event_of(ToolbarSignal::FocusLost { pid, tid });
    assert(seq![gained].drop_last() =~= Seq::empty());
    assert(seq![gained, lost].drop_last() =~= seq![gained]);
    assert(window::after_events(m, Seq::empty(), false, ready) == m);
    assert(window::after_events(m, seq![gained], false, ready) == window::after_event(
        m,
        gained,
        false,
        ready,
    ));
}

} // verus!
