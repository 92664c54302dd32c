//! The daemon: what it does with requests, when it writes the dictionary, and its main loop.

use vstd::prelude::*;

use crate::toolbar::host::ToolbarHost;
use crate::toolbar::window::BarEvent;
use crate::wire::{Request, Response};

verus! {

/// The flags that the threads of the daemon share.
#[derive(Clone, Copy, Debug, PartialEq, Eq, Structural)]
pub struct DaemonState {
    /// The dictionary has changed since it was last written.
    pub dirty: bool,
    /// The settings window is to close.
    pub close_settings: bool,
    /// The settings window is to open.
    pub open_settings: bool,
    /// The settings window is open.
    pub settings_open: bool,
    /// The daemon is to end.
    pub quit_flag: bool,
}

/// What came of writing the dictionary into the shared segment.
#[derive(Clone, Copy, Debug, PartialEq, Eq, Structural)]
pub enum ShmWrite {
    /// There is no segment.
    Missing,
    Failed,
    /// It was written, and has this version now.
    Written(u32),
}

/// How long to wait between two attempts to write the dictionary, in milliseconds.
pub const FLUSH_RETRY_MS: u64 = 50;

/// How often the main loop looks at the flags, in milliseconds.
pub const POLL_INTERVAL_MS: u64 = 50;

/// The name of the mutex that keeps the daemon single.
pub const MUTEX_DAEMON: &'static str = "Local\\iuv-daemon";

impl DaemonState {
    /// The daemon as it starts.
    pub fn new() -> (r: DaemonState)
        ensures
            r == (DaemonState {
                dirty: false,
                close_settings: false,
                open_settings: false,
                settings_open: false,
                quit_flag: false,
            }),
    {
        DaemonState {
            dirty: false,
            close_settings: false,
            open_settings: false,
            settings_open: false,
            quit_flag: false,
        }
    }

    /// Ends publishing the dictionary: whatever came of it, it is to be written to its file.
    /// Gives the version of the segment, where it was written.
    pub fn publish(&mut self, write: ShmWrite) -> (r: Option<u32>)
        ensures
            *final(self) == (DaemonState { dirty: true, ..*old(self) }),
            r == (match write {
                ShmWrite::Written(v) => Some(v),
                _ => None::<u32>,
            }),
    {
        self.dirty = true;
        match write {
            ShmWrite::Written(v) => Some(v),
            ShmWrite::Missing | ShmWrite::Failed => None,
        }
    }

    /// The version to answer with: 0 without a segment.
    pub fn current_version(&self, segment: Option<u32>) -> (r: u32)
        ensures
            r == (match segment {
                Some(v) => v,
                None => 0u32,
            }),
    {
        match segment {
            Some(v) => v,
            None => 0,
        }
    }

    /// The epoch of the settings after it was raised: 0 without a segment.
    pub fn bump_config_epoch(&self, raised: Option<u32>) -> (r: u32)
        ensures
            r == (match raised {
                Some(v) => v,
                None => 0u32,
            }),
    {
        match raised {
            Some(v) => v,
            None => 0,
        }
    }

    /// Whether the dictionary is to be written now; takes the mark off it.
    pub fn flush_if_dirty(&mut self) -> (write: bool)
        ensures
            write == old(self).dirty,
            *final(self) == (DaemonState { dirty: false, ..*old(self) }),
    {
        let write: bool = self.dirty;
        self.dirty = false;
        write
    }

    /// Takes what came of writing the dictionary: a failure puts the mark back.
    pub fn flushed(&mut self, saved: bool)
        ensures
            *final(self) == (DaemonState { dirty: old(self).dirty || !saved, ..*old(self) }),
    {
        if !saved {
            self.dirty = true;
        }
    }
}

/// Writing the dictionary with patience: at once, and up to three times more.
#[derive(Clone, Copy, Debug, PartialEq, Eq, Structural)]
pub struct FlushRun {
    /// The attempts made.
    pub tries: u8,
}

/// The next step of writing the dictionary.
#[derive(Clone, Copy, Debug, PartialEq, Eq, Structural)]
pub enum FlushStep {
    /// Wait so many milliseconds, then write, and report with `flushed`.
    Write { delay_ms: u64 },
    Done,
}

/// Whether the dictionary is written once more: while it is marked, and at most four times.
pub open spec fn writes_again(dirty: bool, tries: int) -> bool {
    dirty && tries < 4
}

impl FlushRun {
    /// No attempt made yet.
    pub fn new() -> (r: FlushRun)
        ensures
            r.tries == 0,
    {
        FlushRun { tries: 0 }
    }

    /// What to do next: nothing more once the dictionary is written, or after four attempts.
    pub fn flush_now(&mut self, state: &mut DaemonState) -> (r: FlushStep)
        ensures
            writes_again(old(state).dirty, old(self).tries as int) ==> {
                &&& r == FlushStep::Write {
                    delay_ms: if old(self).tries == 0 {
                        0
                    } else {
                        FLUSH_RETRY_MS
                    },
                }
                &&& final(self).tries == old(self).tries + 1
                &&& *final(state) == (DaemonState { dirty: false, ..*old(state) })
            },
            !writes_again(old(state).dirty, old(self).tries as int) ==> {
                &&& r == FlushStep::Done
                &&& *final(self) == *old(self)
                &&& *final(state) == *old(state)
            },
    {
        if self.tries >= 4 {
            return FlushStep::Done;
        }
        if !state.dirty {
            return FlushStep::Done;
        }
        state.dirty = false;
        let delay_ms: u64 = if self.tries == 0 {
            0
        } else {
            FLUSH_RETRY_MS
        };
        self.tries = self.tries + 1;
        FlushStep::Write { delay_ms }
    }
}

/// What is left of the mark, and how many attempts were made, when it is written as often as
/// `writes_again` says, from attempt `from` on, and each attempt comes out as `outcomes` says.
pub open spec fn flush_result(dirty: bool, outcomes: spec_fn(int) -> bool, from: int) -> (bool, int)
    decreases 4 - from,
{
    if !writes_again(dirty, from) {
        (dirty, from)
    } else {
        flush_result(!outcomes(from), outcomes, from + 1)
    }
}

/// The dictionary stays marked only if all four attempts failed; the attempts end with the first
/// that succeeds.
pub proof fn law_flush(outcomes: spec_fn(int) -> bool)
    ensures
        ({
            let (dirty, tries) = flush_result(true, outcomes, 0);
            &&& 1 <= tries <= 4
            &&& dirty ==> tries == 4 && forall|i: int| 0 <= i < 4 ==> !#[trigger] outcomes(i)
            &&& !dirty ==> outcomes(tries - 1) && forall|i: int|
                0 <= i < tries - 1 ==> !#[trigger] outcomes(i)
        }),
{
    reveal_with_fuel(flush_result, 6);
}

/// A change of the dictionary as it is carried out.
#[derive(Debug, PartialEq, Eq)]
pub enum DictEdit {
    /// Two words get these weights.
    Swap {
        a_code: String,
        a_word: String,
        a_weight: u32,
        b_code: String,
        b_word: String,
        b_weight: u32,
    },
    SetEntry { code: String, word: String, weight: u32 },
    Remove { code: String, word: String },
    Block { code: String, word: String },
}

/// What becomes of a request.
#[derive(Debug, PartialEq, Eq)]
pub enum Plan {
    /// Answer it.
    Answer(Response),
    /// Bring the settings window to the front, then answer.
    FocusSettings(Response),
    /// Change the dictionary, publish it, write it, then answer with `edited`.
    Edit(DictEdit),
}

/// Whether an edit carries out a request. An exchange gives each word the weight that the other
/// one had.
pub open spec fn carries_out(e: DictEdit, req: Request) -> bool {
    match req {
        Request::Swap { a_code, a_word, a_adj, b_code, b_word, b_adj } => {
            &&& e is Swap
            &&& e->a_code@ == a_code@
            &&& e->a_word@ == a_word@
            &&& e->a_weight == b_adj
            &&& e->b_code@ == b_code@
            &&& e->b_word@ == b_word@
            &&& e->b_weight == a_adj
        },
        Request::SetEntry { code, word, adj } => {
            &&& e is SetEntry
            &&& e->SetEntry_code@ == code@
            &&& e->SetEntry_word@ == word@
            &&& e->weight == adj
        },
        Request::Remove { code, word } => {
            &&& e is Remove
            &&& e->Remove_code@ == code@
            &&& e->Remove_word@ == word@
        },
        Request::Block { code, word } => {
            &&& e is Block
            &&& e->Block_code@ == code@
            &&& e->Block_word@ == word@
        },
        _ => false,
    }
}

/// Whether a request is the report of an instance, which goes to the toolbar by another way.
pub open spec fn is_report(req: Request) -> bool {
    req is Register || req is StateSync || req is Active || req is Unregister
}

/// Takes a request. `segment` is the version of the shared segment, where there is one. Asking
/// for the settings while their window is open brings it to the front and leaves no mark that
/// would open it again.
pub fn handle_request(
    state: &mut DaemonState,
    toolbar: &mut ToolbarHost,
    req: &Request,
    segment: Option<u32>,
) -> (r: Plan)
    requires
        !is_report(*req),
    ensures
        ({
            let version = match segment {
                Some(v) => v,
                None => 0u32,
            };
            let done = Plan::Answer(Response::Done { version });
            match *req {
                Request::Ping | Request::ToggleToolbar => r == done && *final(state) == *old(state),
                Request::GetToolbarVisible => {
                    &&& r == Plan::Answer(
                        Response::ToolbarVisible { visible: old(toolbar).bar@.board.visible },
                    )
                    &&& *final(state) == *old(state)
                },
                Request::OpenSettings => if old(state).settings_open {
                    &&& r == Plan::FocusSettings(Response::Done { version })
                    &&& *final(state) == *old(state)
                } else {
                    &&& r == done
                    &&& *final(state) == (DaemonState { open_settings: true, ..*old(state) })
                },
                Request::Quit => {
                    &&& r == done
                    &&& *final(state) == (DaemonState {
                        quit_flag: true,
                        close_settings: true,
                        ..*old(state)
                    })
                },
                _ => {
                    &&& r matches Plan::Edit(e) && carries_out(e, *req)
                    &&& *final(state) == *old(state)
                },
            }
        }),
        final(toolbar).bar == old(toolbar).bar,
        final(toolbar).pending@ == if *req is ToggleToolbar {
            old(toolbar).pending@.push(BarEvent::ToggleVisible)
        } else {
            old(toolbar).pending@
        },
{
    let version: u32 = state.current_version(segment);
    if toolbar.handle_request(req) {
        return Plan::Answer(Response::Done { version });
    }
    match req {
        Request::GetToolbarVisible => Plan::Answer(
            Response::ToolbarVisible { visible: toolbar.visible() },
        ),
        Request::OpenSettings => {
            if state.settings_open {
                Plan::FocusSettings(Response::Done { version })
            } else {
                state.open_settings = true;
                Plan::Answer(Response::Done { version })
            }
        },
        Request::Quit => {
            state.quit_flag = true;
            state.close_settings = true;
            Plan::Answer(Response::Done { version })
        },
        Request::Swap { a_code, a_word, a_adj, b_code, b_word, b_adj } => Plan::Edit(
            DictEdit::Swap {
                a_code: a_code.clone(),
                a_word: a_word.clone(),
                a_weight: *b_adj,
                b_code: b_code.clone(),
                b_word: b_word.clone(),
                b_weight: *a_adj,
            },
        ),
        Request::SetEntry { code, word, adj } => Plan::Edit(
            DictEdit::SetEntry { code: code.clone(), word: word.clone(), weight: *adj },
        ),
        Request::Remove { code, word } => Plan::Edit(
            DictEdit::Remove { code: code.clone(), word: word.clone() },
        ),
        Request::Block { code, word } => Plan::Edit(
            DictEdit::Block { code: code.clone(), word: word.clone() },
        ),
        _ => Plan::Answer(Response::Done { version }),
    }
}

/// Ends a change of the dictionary: it is published, and marked to be written. Gives the answer
/// to the request.
pub fn edited(state: &mut DaemonState, write: ShmWrite) -> (r: Response)
    ensures
        *final(state) == (DaemonState { dirty: true, ..*old(state) }),
        r == (Response::Done {
            version: match write {
                ShmWrite::Written(v) => v,
                _ => 0u32,
            },
        }),
{
    let version: u32 = match state.publish(write) {
        Some(v) => v,
        None => 0,
    };
    Response::Done { version }
}

/// Exchanging the weights of two words, and then exchanging them back, asks for the weights that
/// they had at first.
pub proof fn law_swap_back(first: Request, e: DictEdit, second: Request, f: DictEdit)
    requires
        first is Swap,
        carries_out(e, first),
        second is Swap,
        second->a_adj == e->a_weight,
        second->b_adj == e->b_weight,
        carries_out(f, second),
    ensures
        e->a_weight == first->b_adj,
        e->b_weight == first->a_adj,
        f->a_weight == first->a_adj,
        f->b_weight == first->b_adj,
{
}

/// What the main loop does next.
#[derive(Clone, Copy, Debug, PartialEq, Eq, Structural)]
pub enum MainStep {
    /// Clean up and end.
    Quit,
    /// Run the settings window until it closes, then report with `settings_closed`.
    RunSettings,
    /// Write the dictionary if it changed, then wait.
    Idle,
}

impl DaemonState {
    /// Looks at the flags: ending comes before the settings.
    pub fn next_step(&mut self) -> (r: MainStep)
        ensures
            r == (if old(self).quit_flag {
                MainStep::Quit
            } else if old(self).open_settings {
                MainStep::RunSettings
            } else {
                MainStep::Idle
            }),
            *final(self) == (if old(self).quit_flag {
                DaemonState { quit_flag: false, ..*old(self) }
            } else if old(self).open_settings {
                DaemonState {
                    open_settings: false,
                    close_settings: false,
                    settings_open: true,
                    ..*old(self)
                }
            } else {
                *old(self)
            }),
    {
        if self.quit_flag {
            self.quit_flag = false;
            return MainStep::Quit;
        }
        if self.open_settings {
            self.open_settings = false;
            self.close_settings = false;
            self.settings_open = true;
            return MainStep::RunSettings;
        }
        MainStep::Idle
    }

    /// The settings window has closed.
    pub fn settings_closed(&mut self)
        ensures
            *final(self) == (DaemonState { settings_open: false, ..*old(self) }),
    {
        self.settings_open = false;
    }

    /// Whether the settings window is to close; takes the mark away.
    pub fn take_close(&mut self) -> (r: bool)
        ensures
            r == old(self).close_settings,
            *final(self) == (DaemonState { close_settings: false, ..*old(self) }),
    {
        let r: bool = self.close_settings;
        self.close_settings = false;
        r
    }
}

/// What came of waiting for the mutex.
#[derive(Clone, Copy, Debug, PartialEq, Eq, Structural)]
pub enum Wait {
    /// It is ours: it was free.
    Free,
    /// It is ours: its holder ended without letting it go.
    Abandoned,
    /// Someone else holds it.
    Held,
}

/// What becomes of the mutex that keeps the daemon single.
#[derive(Clone, Copy, Debug, PartialEq, Eq, Structural)]
pub enum Single {
    /// This is the one daemon.
    Ours,
    /// Another one runs: close the handle, and end.
    Theirs,
    /// There is no mutex: end.
    NoMutex,
}

/// Whether this is the one daemon. `created` tells whether the mutex could be made, `existed`
/// whether it was there before; only then is `wait` looked at.
pub fn acquire_mutex(created: bool, existed: bool, wait: Wait) -> (r: Single)
    ensures
        r == (if !created {
            Single::NoMutex
        } else if !existed || wait != Wait::Held {
            Single::Ours
        } else {
            Single::Theirs
        }),
{
    if !created {
        return Single::NoMutex;
    }
    if !existed {
        return Single::Ours;
    }
    match wait {
        Wait::Free | Wait::Abandoned => Single::Ours,
        Wait::Held => Single::Theirs,
    }
}

/// The exit code with which the daemon ends before its main loop; `None` where it goes on. It
/// ends well where another daemon runs, and badly where the dictionary has no place.
pub fn startup_exit(single: Single, has_dict_path: bool) -> (r: Option<i32>)
    ensures
        r == (if single != Single::Ours {
            Some(0i32)
        } else if !has_dict_path {
            Some(1i32)
        } else {
            None::<i32>
        }),
{
    match single {
        Single::Ours => if has_dict_path {
            None
        } else {
            Some(1)
        },
        Single::Theirs | Single::NoMutex => Some(0),
    }
}

/// A request about words is carried out on the words that it names; a swap gives each of the two
/// the weight that the other came with, the others keep theirs.
pub proof fn law_edit_carries_out(e: DictEdit, req: Request)
    requires
        carries_out(e, req),
    ensures
        req is Swap || req is SetEntry || req is Remove || req is Block,
        (e is Swap) == (req is Swap),
        (e is SetEntry) == (req is SetEntry),
        (e is Remove) == (req is Remove),
        (e is Block) == (req is Block),
        req is Swap ==> {
            &&& e->a_word@ == req->a_word@ && e->a_code@ == req->a_code@
            &&& e->b_word@ == req->b_word@ && e->b_code@ == req->b_code@
            &&& e->a_weight == req->b_adj
            &&& e->b_weight == req->a_adj
        },
        req is SetEntry ==> e->SetEntry_word@ == req->SetEntry_word@ && e->SetEntry_code@
            == req->SetEntry_code@ && e->weight == req->adj,
        req is Remove ==> e->Remove_word@ == req->Remove_word@ && e->Remove_code@
            == req->Remove_code@,
        req is Block ==> e->Block_word@ == req->Block_word@ && e->Block_code@ == req->Block_code@,
{
}

/// At the end, what is not on disk is written, at most four times, and never where all is there.
pub proof fn law_writes_at_the_end(dirty: bool, tries: int)
    ensures
        !dirty ==> !writes_again(dirty, tries),
        dirty && 0 <= tries <= 3 ==> writes_again(dirty, tries),
        tries >= 4 ==> !writes_again(dirty, tries),
{
}

/// The reports of instances are those that tell of one; the other requests are answered.
pub proof fn law_reports(req: Request)
    ensures
        is_report(req) <==> !(req is Ping || req is Quit || req is OpenSettings
            || req is GetToolbarVisible || req is ToggleToolbar || req is Swap || req is SetEntry
            || req is Remove || req is Block),
{
}

} // verus!
