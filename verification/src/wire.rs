//! What the processes say to each other: requests to the daemon, its answers, commands to an
//! instance and the signals of the toolbar.

use vstd::prelude::*;

use crate::ime::{ImeState, InitialMode, PunctMode, ScriptMode, WidthMode};

verus! {

/// A change of the user's dictionary, as the engine makes it.
#[derive(Debug, PartialEq, Eq)]
pub enum UserMutation {
    /// Two words exchange their weights; each comes with the weight it had.
    Swap {
        a_code: String,
        a_word: String,
        a_eff: u32,
        b_code: String,
        b_word: String,
        b_eff: u32,
    },
    SetEntry { code: String, word: String, adj: u32 },
    Remove { code: String, word: String },
    Block { code: String, word: String },
}

/// A request to the daemon.
#[derive(Debug, PartialEq, Eq)]
pub enum Request {
    Ping,
    Quit,
    OpenSettings,
    GetToolbarVisible,
    ToggleToolbar,
    Swap {
        a_code: String,
        a_word: String,
        a_adj: u32,
        b_code: String,
        b_word: String,
        b_adj: u32,
    },
    SetEntry { code: String, word: String, adj: u32 },
    Remove { code: String, word: String },
    Block { code: String, word: String },
    Register { pid: u32, tid: u32, state: ImeState },
    StateSync { pid: u32, tid: u32, state: ImeState },
    Active { pid: u32, tid: u32, active: bool },
    Unregister { pid: u32, tid: u32 },
}

/// An answer of the daemon.
#[derive(Debug, PartialEq, Eq)]
pub enum Response {
    Done { version: u32 },
    Refused { msg: String },
    ToolbarVisible { visible: bool },
}

/// A command to an instance: each sets one switch, `true` to its second state (English, full
/// width, traditional, English punctuation).
#[derive(Clone, Copy, Debug, PartialEq, Eq, Structural)]
pub enum CtlCmd {
    SetMode(bool),
    SetWidth(bool),
    SetScript(bool),
    SetPunct(bool),
}

/// What an instance answers to a command.
#[derive(Debug, PartialEq, Eq)]
pub enum CtlResult {
    Applied { state: ImeState },
    Failed { msg: String },
}

/// A signal of an instance to the toolbar.
#[derive(Clone, Copy, Debug, PartialEq, Eq, Structural)]
pub enum ToolbarSignal {
    FocusGained { pid: u32, tid: u32, state: ImeState },
    FocusLost { pid: u32, tid: u32 },
    StateChanged { pid: u32, tid: u32, state: ImeState },
}

/// The switches after a command has been carried out.
pub open spec fn after_cmd(s: ImeState, cmd: CtlCmd) -> ImeState {
    match cmd {
        CtlCmd::SetMode(second) => ImeState {
            mode: if second {
                InitialMode::English
            } else {
                InitialMode::Chinese
            },
            ..s
        },
        CtlCmd::SetWidth(second) => ImeState {
            width: if second {
                WidthMode::Full
            } else {
                WidthMode::Half
            },
            ..s
        },
        CtlCmd::SetScript(second) => ImeState {
            script: if second {
                ScriptMode::Traditional
            } else {
                ScriptMode::Simplified
            },
            ..s
        },
        CtlCmd::SetPunct(second) => ImeState {
            punct: if second {
                PunctMode::English
            } else {
                PunctMode::Chinese
            },
            ..s
        },
    }
}

/// Whether a request asks for a change of the dictionary: the same words, codes and weights.
pub open spec fn asks_for(r: Request, m: UserMutation) -> bool {
    match m {
        UserMutation::Swap { a_code, a_word, a_eff, b_code, b_word, b_eff } => {
            &&& r is Swap
            &&& r->a_code@ == a_code@
            &&& r->a_word@ == a_word@
            &&& r->a_adj == a_eff
            &&& r->b_code@ == b_code@
            &&& r->b_word@ == b_word@
            &&& r->b_adj == b_eff
        },
        UserMutation::SetEntry { code, word, adj } => {
            &&& r is SetEntry
            &&& r->SetEntry_code@ == code@
            &&& r->SetEntry_word@ == word@
            &&& r->adj == adj
        },
        UserMutation::Remove { code, word } => {
            &&& r is Remove
            &&& r->Remove_code@ == code@
            &&& r->Remove_word@ == word@
        },
        UserMutation::Block { code, word } => {
            &&& r is Block
            &&& r->Block_code@ == code@
            &&& r->Block_word@ == word@
        },
    }
}

/// The request for a change of the dictionary.
pub fn user_mutation_to_request(m: &UserMutation) -> (r: Request)
    ensures
        asks_for(r, *m),
{
    match m {
        UserMutation::Swap { a_code, a_word, a_eff, b_code, b_word, b_eff } => Request::Swap {
            a_code: a_code.clone(),
            a_word: a_word.clone(),
            a_adj: *a_eff,
            b_code: b_code.clone(),
            b_word: b_word.clone(),
            b_adj: *b_eff,
        },
        UserMutation::SetEntry { code, word, adj } => Request::SetEntry {
            code: code.clone(),
            word: word.clone(),
            adj: *adj,
        },
        UserMutation::Remove { code, word } => Request::Remove {
            code: code.clone(),
            word: word.clone(),
        },
        UserMutation::Block { code, word } => Request::Block {
            code: code.clone(),
            word: word.clone(),
        },
    }
}

/// Whether the daemon took the request.
pub fn response_ok(resp: &Response) -> (r: bool)
    ensures
        r == (*resp is Done),
{
    match resp {
        Response::Done { .. } => true,
        _ => false,
    }
}

/// A command sets its own switch, to the second state or the first as it says, and leaves the
/// other three as they are.
pub proof fn law_command_sets_its_switch(s: ImeState, second: bool)
    ensures
        ({
            let t = after_cmd(s, CtlCmd::SetMode(second));
            &&& (t.mode == InitialMode::English) == second
            &&& t.width == s.width && t.script == s.script && t.punct == s.punct
        }),
        ({
            let t = after_cmd(s, CtlCmd::SetWidth(second));
            &&& (t.width == WidthMode::Full) == second
            &&& t.mode == s.mode && t.script == s.script && t.punct == s.punct
        }),
        ({
            let t = after_cmd(s, CtlCmd::SetScript(second));
            &&& (t.script == ScriptMode::Traditional) == second
            &&& t.mode == s.mode && t.width == s.width && t.punct == s.punct
        }),
        ({
            let t = after_cmd(s, CtlCmd::SetPunct(second));
            &&& (t.punct == PunctMode::English) == second
            &&& t.mode == s.mode && t.width == s.width && t.script == s.script
        }),
{
}

/// A request keeps the words, codes and weights of the change that it asks for, each with its
/// own: no other change has the same request.
pub proof fn law_request_tells_the_change(r: Request, m: UserMutation)
    requires
        asks_for(r, m),
    ensures
        (r is Swap) == (m is Swap),
        (r is SetEntry) == (m is SetEntry),
        (r is Remove) == (m is Remove),
        (r is Block) == (m is Block),
        m is Swap ==> {
            &&& r->a_code@ == m->a_code@ && r->a_word@ == m->a_word@ && r->a_adj == m->a_eff
            &&& r->b_code@ == m->b_code@ && r->b_word@ == m->b_word@ && r->b_adj == m->b_eff
        },
        m is SetEntry ==> r->SetEntry_code@ == m->SetEntry_code@ && r->SetEntry_word@
            == m->SetEntry_word@ && r->adj == m->adj,
        m is Remove ==> r->Remove_code@ == m->Remove_code@ && r->Remove_word@ == m->Remove_word@,
        m is Block ==> r->Block_code@ == m->Block_code@ && r->Block_word@ == m->Block_word@,
{
}

} // verus!
