//! Measuring how long the steps of a key press take.

use vstd::prelude::*;

use crate::text;
use crate::text::{join3, to_decimal};

verus! {

/// The tag of the lines.
pub const PERF_TAG: &'static str = "perf";

/// Whether times are measured. They are not unless that was asked for.
#[derive(Clone, Copy, Debug, PartialEq, Eq, Structural)]
pub struct PerfProbe {
    pub disabled: bool,
}

impl PerfProbe {
    /// Nothing is measured.
    pub fn new() -> (r: PerfProbe)
        ensures
            r.disabled,
    {
        PerfProbe { disabled: true }
    }
}

/// Turns measuring on or off.
pub fn set_perf_probe(probe: &mut PerfProbe, enabled: bool)
    ensures
        final(probe).disabled == !enabled,
{
    probe.disabled = !enabled;
}

/// Begins to measure: the time, in microseconds, if times are measured.
pub fn perf_tick(probe: &PerfProbe, now: u64) -> (r: Option<u64>)
    ensures
        r == (if probe.disabled {
            None::<u64>
        } else {
            Some(now)
        }),
{
    if probe.disabled {
        None
    } else {
        Some(now)
    }
}

/// The line for a step that took a time.
pub open spec fn perf_line(phase: Seq<char>, micros: nat) -> Seq<char> {
    "[perf] "@ + phase + " "@ + text::decimal(micros) + "us"@
}

/// The line for a step of the engine.
pub fn perf_probe_emit(phase: &str, micros: u64) -> (r: String)
    ensures
        r@ == perf_line(phase@, micros as nat),
{
    let number: String = to_decimal(micros);
    let head: String = join3("[perf] ", phase, " ");
    join3(head.as_str(), number.as_str(), "us")
}

/// The line for a step that began at `t` and ended at `now`, with a detail unless that is empty.
/// A clock that went back counts as no time.
pub open spec fn record_line(phase: Seq<char>, t: u64, now: u64, detail: Seq<char>) -> Seq<char> {
    let micros = if now >= t {
        (now - t) as nat
    } else {
        0
    };
    if detail.len() == 0 {
        perf_line(phase, micros)
    } else {
        perf_line(phase, micros) + " "@ + detail
    }
}

/// The line for a step that was measured, with a detail where there is one. The detail is made
/// only then: without a beginning, `detail` is not called, and need not be callable.
pub fn perf_record_with<F: FnOnce() -> String>(
    phase: &str,
    start: Option<u64>,
    now: u64,
    detail: F,
) -> (r: Option<String>)
    requires
        start is Some ==> call_requires(detail, ()),
    ensures
        match start {
            None => r is None,
            Some(t) => exists|d: String|
                #[trigger] call_ensures(detail, (), d) && r is Some && r->0@ == record_line(
                    phase@,
                    t,
                    now,
                    d@,
                ),
        },
{
    match start {
        None => None,
        Some(t) => {
            let micros: u64 = if now >= t {
                now - t
            } else {
                0
            };
            let d: String = detail();
            let line: String = perf_probe_emit(phase, micros);
            if d.as_str().is_empty() {
                Some(line)
            } else {
                Some(join3(line.as_str(), " ", d.as_str()))
            }
        },
    }
}

/// A measurement is told with its phase and the time between, never a negative one, and with its
/// detail where there is one.
pub proof fn law_measurement_told(phase: Seq<char>, t: u64, now: u64, detail: Seq<char>)
    ensures
        now >= t ==> record_line(phase, t, now, Seq::empty()) == "[perf] "@ + phase + " "@
            + text::decimal((now - t) as nat) + "us"@,
        now < t ==> record_line(phase, t, now, Seq::empty()) == "[perf] "@ + phase + " "@
            + text::decimal(0) + "us"@,
        detail.len() > 0 ==> record_line(phase, t, now, detail) == record_line(
            phase,
            t,
            now,
            Seq::empty(),
        ) + " "@ + detail,
{
}

} // verus!
