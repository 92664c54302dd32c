//! The log files, and what is written into them when the daemon fails.

use vstd::prelude::*;

use crate::hotkey;
use crate::text;
use crate::text::{join2, join3, to_decimal};

verus! {

/// The log files: of the daemon, of the programs, of the scripts and of the clean-up.
pub const LOG_FILES: [&'static str; 4] = [
    "input-iuv-daemon.log",
    "iuv-tsf.log",
    "iuv-script.log",
    "iuv-cleanup.log",
];

/// How many log files were emptied, and how many were not. `emptied` tells of each what came of
/// it; there is none where the directory is not known, and then all count as not emptied.
pub fn clear_logs(emptied: Option<&Vec<bool>>) -> (r: (usize, usize))
    requires
        emptied matches Some(e) ==> e@.len() == 4,
    ensures
        match emptied {
            None => r.0 == 0 && r.1 == 4,
            Some(e) => r.0 == hotkey::good(e@) && r.0 + r.1 == 4,
        },
{
    match emptied {
        None => (0, 4),
        Some(e) => hotkey::tally(e),
    }
}

/// The place of a failure: a file and a line.
#[derive(Debug)]
pub struct Place {
    pub file: String,
    pub line: u32,
}

/// The line that is written when the daemon fails. What is not known is called so.
pub fn panic_line(msg: Option<&str>, place: Option<&Place>) -> (r: String)
    ensures
        r@ == "[panic] "@ + (match msg {
            Some(m) => m@,
            None => "未知 panic"@,
        }) + " @ "@ + (match place {
            Some(p) => p.file@ + ":"@ + text::decimal(p.line as nat),
            None => "未知位置"@,
        }),
{
    let what: &str = match msg {
        Some(m) => m,
        None => "未知 panic",
    };
    let at: String = match place {
        Some(p) => {
            let line: String = to_decimal(p.line as u64);
            join3(p.file.as_str(), ":", line.as_str())
        },
        None => "未知位置".to_owned(),
    };
    let head: String = join3("[panic] ", what, " @ ");
    join2(head.as_str(), at.as_str())
}

} // verus!
