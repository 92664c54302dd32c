//! The endpoint through which the toolbar sets the switches of an instance.
//!
//! A thread takes the commands; the thread of the instance carries them out.

use vstd::prelude::*;

use crate::wire::{CtlCmd, CtlResult};

verus! {

/// The message that tells the thread of the instance that a command waits.
pub const WM_APP_TOOLBAR_CMD: u32 = 0x8028;

/// How long the answer of the instance is waited for, in milliseconds.
pub const CTL_TIMEOUT_MS: u64 = 3000;

/// How long to wait after the endpoint could not be made, in milliseconds.
pub const CTL_RETRY_MS: u64 = 200;

/// The endpoint.
#[derive(Clone, Copy, Debug, PartialEq, Eq, Structural)]
pub struct CtlEndpoint {
    /// The command that waits.
    pub pending: Option<CtlCmd>,
    /// Whether the thread is to end.
    pub stop: bool,
}

/// What the window of the endpoint does with a message.
#[derive(Clone, Copy, Debug, PartialEq, Eq, Structural)]
pub enum CtlMessage {
    /// The system answers it.
    System,
    /// Nothing waits.
    Nothing,
    /// Carry out this command, and hand the result back.
    Apply(CtlCmd),
}

impl CtlEndpoint {
    /// An endpoint at which nothing waits.
    pub fn new() -> (r: CtlEndpoint)
        ensures
            r == (CtlEndpoint { pending: None, stop: false }),
    {
        CtlEndpoint { pending: None, stop: false }
    }

    /// Puts a command where the thread of the instance will find it. One that still waits gives
    /// way.
    pub fn post(&mut self, cmd: CtlCmd)
        ensures
            *final(self) == (CtlEndpoint { pending: Some(cmd), ..*old(self) }),
    {
        self.pending = Some(cmd);
    }

    /// The procedure of the window.
    pub fn wnd_proc(&mut self, msg: u32) -> (r: CtlMessage)
        ensures
            msg != WM_APP_TOOLBAR_CMD ==> r == CtlMessage::System && *final(self) == *old(self),
            msg == WM_APP_TOOLBAR_CMD ==> {
                &&& *final(self) == (CtlEndpoint { pending: None, ..*old(self) })
                &&& r == (match old(self).pending {
                    Some(cmd) => CtlMessage::Apply(cmd),
                    None => CtlMessage::Nothing,
                })
            },
    {
        if msg != WM_APP_TOOLBAR_CMD {
            return CtlMessage::System;
        }
        match self.pending {
            Some(cmd) => {
                self.pending = None;
                CtlMessage::Apply(cmd)
            },
            None => CtlMessage::Nothing,
        }
    }
}

/// The answer to a command: that of the instance, or that it took too long.
pub fn dispatch_ctl_cmd(answer: Option<CtlResult>) -> (r: CtlResult)
    ensures
        match answer {
            Some(a) => r == a,
            None => r matches CtlResult::Failed { msg } && msg@ == "TSF 线程应用命令超时"@,
        },
{
    match answer {
        Some(a) => a,
        None => CtlResult::Failed { msg: "TSF 线程应用命令超时".to_owned() },
    }
}

/// A step of the thread that takes commands.
#[derive(Clone, Copy, Debug, PartialEq, Eq, Structural)]
pub enum AcceptStep {
    /// Make the endpoint.
    Create,
    /// Wait before the next attempt.
    Sleep,
    /// Wait for the toolbar.
    Connect,
    /// Take one command and answer it.
    Serve,
    Exit,
}

/// The step that follows. Whether to end is looked at before the endpoint is made, which it is
/// for every command anew.
pub open spec fn accept_after(step: AcceptStep, good: bool, stop: bool) -> AcceptStep {
    let round = if stop {
        AcceptStep::Exit
    } else {
        AcceptStep::Create
    };
    match step {
        AcceptStep::Create => if good {
            AcceptStep::Connect
        } else {
            AcceptStep::Sleep
        },
        AcceptStep::Connect => if good {
            AcceptStep::Serve
        } else {
            round
        },
        AcceptStep::Sleep => round,
        AcceptStep::Serve => round,
        AcceptStep::Exit => AcceptStep::Exit,
    }
}

impl CtlEndpoint {
    /// The first step of the thread.
    pub fn accept_begin(&self) -> (r: AcceptStep)
        ensures
            r == (if self.stop {
                AcceptStep::Exit
            } else {
                AcceptStep::Create
            }),
    {
        if self.stop {
            AcceptStep::Exit
        } else {
            AcceptStep::Create
        }
    }

    /// Takes what came of a step of the thread, and gives the next.
    pub fn accept_thread(&self, step: AcceptStep, good: bool) -> (r: AcceptStep)
        ensures
            r == accept_after(step, good, self.stop),
    {
        match step {
            AcceptStep::Create => if good {
                AcceptStep::Connect
            } else {
                AcceptStep::Sleep
            },
            AcceptStep::Connect => if good {
                AcceptStep::Serve
            } else {
                self.accept_begin()
            },
            AcceptStep::Sleep | AcceptStep::Serve => self.accept_begin(),
            AcceptStep::Exit => AcceptStep::Exit,
        }
    }
}

/// A thread that is told to end serves at most the command it has: from wherever it is, at most
/// three steps lead to its end.
pub proof fn law_stop_ends(step: AcceptStep, g1: bool, g2: bool, g3: bool)
    ensures
        ({
            let a = accept_after(step, g1, true);
            let b = accept_after(a, g2, true);
            let c = accept_after(b, g3, true);
            c == AcceptStep::Exit
        }),
{
}

/// Serving goes round: a connection is waited for only where a pipe was made, a command is served
/// only where someone has connected, and afterwards another pipe is made. Where none could be
/// made there is a pause first. Only being stopped ends it.
pub proof fn law_serving_goes_round(step: AcceptStep, good: bool, stop: bool)
    ensures
        ({
            let next = accept_after(step, good, stop);
            &&& next == AcceptStep::Connect <==> step == AcceptStep::Create && good
            &&& next == AcceptStep::Serve <==> step == AcceptStep::Connect && good
            &&& next == AcceptStep::Sleep <==> step == AcceptStep::Create && !good
            &&& step == AcceptStep::Serve && !stop ==> next == AcceptStep::Create
            &&& step == AcceptStep::Sleep && !stop ==> next == AcceptStep::Create
            &&& step == AcceptStep::Connect && !good && !stop ==> next == AcceptStep::Create
            &&& next == AcceptStep::Exit ==> stop || step == AcceptStep::Exit
            &&& stop && (step == AcceptStep::Serve || step == AcceptStep::Sleep) ==> next
                == AcceptStep::Exit
        }),
{
}

} // verus!
