//! The text that is being composed in a document: how it is shown, measured and ended.
//!
//! Documents change only inside edit sessions, step by step. A session that fails at a step goes
//! no further.

use vstd::prelude::*;

use crate::geometry;
use crate::geometry::{saturate, Rect};
use crate::session_bridge::CaretRect;

verus! {

/// After how many failures in a row a program is taken not to tell where its caret is.
pub const CARET_PROBE_FAIL_LIMIT: u8 = 3;

/// The text that is being composed.
#[derive(Clone, Copy, Debug, PartialEq, Eq, Structural)]
pub struct Composition {
    /// Whether a composition has been started in the document.
    pub started: bool,
    /// Whether the program has ended it.
    pub terminated: bool,
    /// How many times in a row the caret could not be measured.
    pub caret_probe_fails: u8,
}

/// What an edit session is for.
#[derive(Clone, Copy, Debug, PartialEq, Eq, Structural)]
pub enum EditKind {
    /// Show a text, and measure where the caret is.
    SetText,
    /// Put the last text into the document, and end.
    Finish,
    /// Measure where the caret is; nothing is written.
    Reposition,
}

/// A step of an edit session.
#[derive(Clone, Copy, Debug, PartialEq, Eq, Structural)]
pub enum EditStep {
    GetSelection,
    CastContext,
    StartComposition,
    GetRange,
    SetText,
    /// Fold the range to its end.
    Collapse,
    SetSelection,
    EndComposition,
    GetActiveView,
    GetTextExt,
    Done,
    Failed,
}

/// What came of a step.
#[derive(Clone, Copy, Debug, PartialEq, Eq)]
pub enum EditResult {
    Good,
    Bad,
    /// The place of the text on the screen, and whether it lies outside the view.
    Extent { rect: Rect, clipped: bool },
}

/// A running edit session.
#[derive(Clone, Copy, Debug)]
pub struct EditRun {
    pub kind: EditKind,
    pub step: EditStep,
    /// Whether it has started a composition.
    pub fresh: bool,
    /// Where the caret was found.
    pub caret: Option<CaretRect>,
}

/// The step that follows.
pub open spec fn next_step(kind: EditKind, step: EditStep, r: EditResult, fails: u8) -> EditStep {
    let typing = kind == EditKind::SetText;
    match step {
        EditStep::Done => EditStep::Done,
        EditStep::Failed => EditStep::Failed,
        EditStep::GetActiveView => if r is Bad {
            if typing {
                EditStep::Done
            } else {
                EditStep::Failed
            }
        } else {
            EditStep::GetTextExt
        },
        EditStep::GetTextExt => if r is Bad && !typing {
            EditStep::Failed
        } else {
            EditStep::Done
        },
        _ => if r is Bad {
            EditStep::Failed
        } else {
            match step {
                EditStep::GetSelection => EditStep::CastContext,
                EditStep::CastContext => EditStep::StartComposition,
                EditStep::StartComposition => EditStep::GetRange,
                EditStep::GetRange => if kind == EditKind::Reposition {
                    EditStep::Collapse
                } else {
                    EditStep::SetText
                },
                EditStep::SetText => EditStep::Collapse,
                EditStep::Collapse => if kind == EditKind::Reposition {
                    EditStep::GetActiveView
                } else {
                    EditStep::SetSelection
                },
                EditStep::SetSelection => if kind == EditKind::Finish {
                    EditStep::EndComposition
                } else if fails >= CARET_PROBE_FAIL_LIMIT {
                    EditStep::Done
                } else {
                    EditStep::GetActiveView
                },
                _ => EditStep::Done,
            }
        },
    }
}

/// Whether a place is that of a text that cannot be seen.
pub open spec fn is_zero(r: Rect) -> bool {
    r.left == 0 && r.top == 0 && r.right == 0 && r.bottom == 0
}

/// The caret at a place: its line's top left corner, its width and height.
pub open spec fn caret_of(r: Rect) -> CaretRect {
    CaretRect {
        x: r.left,
        y: r.top,
        w: geometry::saturated(r.right - r.left) as i32,
        h: geometry::saturated(r.bottom - r.top) as i32,
    }
}

/// The failures in a row after a measurement. A text outside the view is no failure; while
/// typing it is no success either.
pub open spec fn fails_after(kind: EditKind, r: EditResult, fails: u8) -> u8 {
    match r {
        EditResult::Extent { clipped, .. } => if clipped && kind == EditKind::SetText {
            fails
        } else {
            0
        },
        EditResult::Good => fails,
        EditResult::Bad => if fails == u8::MAX {
            u8::MAX
        } else {
            (fails + 1) as u8
        },
    }
}

/// Where a measurement puts the caret.
pub open spec fn measured(r: EditResult) -> Option<CaretRect> {
    match r {
        EditResult::Extent { rect, clipped } => if clipped || is_zero(rect) {
            None
        } else {
            Some(caret_of(rect))
        },
        _ => None,
    }
}

/// An edit session after a step.
pub open spec fn run_after(c: Composition, run: EditRun, r: EditResult) -> EditRun {
    EditRun {
        kind: run.kind,
        step: next_step(run.kind, run.step, r, c.caret_probe_fails),
        fresh: run.fresh || (run.step == EditStep::StartComposition && !(r is Bad)),
        caret: if run.step == EditStep::GetTextExt {
            measured(r)
        } else {
            run.caret
        },
    }
}

/// The composition after a step. Only a session that comes to its end leaves its mark on whether
/// there is one.
pub open spec fn composition_after(c: Composition, run: EditRun, r: EditResult) -> Composition {
    let next = run_after(c, run, r);
    let ends = run.step != EditStep::Done && next.step == EditStep::Done;
    Composition {
        started: if ends && run.kind == EditKind::Finish {
            false
        } else if ends && run.kind == EditKind::SetText && next.fresh {
            true
        } else {
            c.started
        },
        terminated: c.terminated && !(run.step == EditStep::StartComposition && !(r is Bad)),
        caret_probe_fails: if run.step == EditStep::GetTextExt {
            fails_after(run.kind, r, c.caret_probe_fails)
        } else {
            c.caret_probe_fails
        },
    }
}

fn to_caret(r: Rect) -> (c: CaretRect)
    ensures
        c == caret_of(r),
{
    CaretRect {
        x: r.left,
        y: r.top,
        w: saturate(r.right as i64 - r.left as i64),
        h: saturate(r.bottom as i64 - r.top as i64),
    }
}

/// The step of an edit session that follows.
fn step_on(kind: EditKind, step: EditStep, r: EditResult, fails: u8) -> (n: EditStep)
    ensures
        n == next_step(kind, step, r, fails),
{
    let bad: bool = match r {
        EditResult::Bad => true,
        _ => false,
    };
    let typing: bool = kind == EditKind::SetText;
    match step {
        EditStep::Done => EditStep::Done,
        EditStep::Failed => EditStep::Failed,
        EditStep::GetActiveView => if !bad {
            EditStep::GetTextExt
        } else if typing {
            EditStep::Done
        } else {
            EditStep::Failed
        },
        EditStep::GetTextExt => if bad && !typing {
            EditStep::Failed
        } else {
            EditStep::Done
        },
        _ => if bad {
            EditStep::Failed
        } else {
            match step {
                EditStep::GetSelection => EditStep::CastContext,
                EditStep::CastContext => EditStep::StartComposition,
                EditStep::StartComposition => EditStep::GetRange,
                EditStep::GetRange => if kind == EditKind::Reposition {
                    EditStep::Collapse
                } else {
                    EditStep::SetText
                },
                EditStep::SetText => EditStep::Collapse,
                EditStep::Collapse => if kind == EditKind::Reposition {
                    EditStep::GetActiveView
                } else {
                    EditStep::SetSelection
                },
                EditStep::SetSelection => if kind == EditKind::Finish {
                    EditStep::EndComposition
                } else if fails >= CARET_PROBE_FAIL_LIMIT {
                    EditStep::Done
                } else {
                    EditStep::GetActiveView
                },
                _ => EditStep::Done,
            }
        },
    }
}

impl Composition {
    /// Nothing is being composed.
    pub fn new() -> (r: Composition)
        ensures
            r == (Composition { started: false, terminated: false, caret_probe_fails: 0 }),
    {
        Composition { started: false, terminated: false, caret_probe_fails: 0 }
    }

    /// Begins to show a text: a composition is started where there is none.
    pub fn set_text(&self) -> (r: EditRun)
        ensures
            r == (EditRun {
                kind: EditKind::SetText,
                step: if self.started {
                    EditStep::GetRange
                } else {
                    EditStep::GetSelection
                },
                fresh: false,
                caret: None,
            }),
    {
        EditRun {
            kind: EditKind::SetText,
            step: if self.started {
                EditStep::GetRange
            } else {
                EditStep::GetSelection
            },
            fresh: false,
            caret: None,
        }
    }

    /// Whether the program has ended the composition.
    pub fn terminated(&self) -> (r: bool)
        ensures
            r == self.terminated,
    {
        self.terminated
    }

    /// Begins to put a text into the document and end. Gives the text that replaces what is
    /// shown.
    pub fn commit(&self, text: &str) -> (r: (EditRun, String))
        ensures
            r.0 == self.finishing(),
            r.1@ == text@,
    {
        (self.finish(), text.to_owned())
    }

    /// Begins to take the text out of the document and end: nothing replaces what is shown.
    pub fn cancel(&self) -> (r: (EditRun, String))
        ensures
            r.0 == self.finishing(),
            r.1@ == Seq::<char>::empty(),
    {
        let nothing: String = String::new();
        assert(nothing@ =~= Seq::empty());
        (self.finish(), nothing)
    }

    /// The session that ends the composition; where there is none, it has nothing to do.
    pub open spec fn finishing(self) -> EditRun {
        EditRun {
            kind: EditKind::Finish,
            step: if self.started {
                EditStep::GetRange
            } else {
                EditStep::Done
            },
            fresh: false,
            caret: None,
        }
    }

    fn finish(&self) -> (r: EditRun)
        ensures
            r == self.finishing(),
    {
        EditRun {
            kind: EditKind::Finish,
            step: if self.started {
                EditStep::GetRange
            } else {
                EditStep::Done
            },
            fresh: false,
            caret: None,
        }
    }

    /// The session that measures where the caret is, where it is tried.
    pub open spec fn asking(self) -> Option<EditRun> {
        if self.caret_probe_fails >= CARET_PROBE_FAIL_LIMIT || !self.started {
            None
        } else {
            Some(
                EditRun {
                    kind: EditKind::Reposition,
                    step: EditStep::GetRange,
                    fresh: false,
                    caret: None,
                },
            )
        }
    }

    /// Begins to measure where the caret is. Without a composition, and in a program that does
    /// not tell, it is not tried.
    pub fn query_caret(&self) -> (r: Option<EditRun>)
        ensures
            r == self.asking(),
    {
        if self.caret_probe_fails >= CARET_PROBE_FAIL_LIMIT || !self.started {
            return None;
        }
        Some(
            EditRun {
                kind: EditKind::Reposition,
                step: EditStep::GetRange,
                fresh: false,
                caret: None,
            },
        )
    }

    /// Takes what came of a step of an edit session, and goes on to the next.
    pub fn do_edit_session(&mut self, run: &mut EditRun, r: EditResult)
        ensures
            *final(run) == run_after(*old(self), *old(run), r),
            *final(self) == composition_after(*old(self), *old(run), r),
    {
        let bad: bool = match r {
            EditResult::Bad => true,
            _ => false,
        };
        let next: EditStep = step_on(run.kind, run.step, r, self.caret_probe_fails);
        if run.step == EditStep::StartComposition && !bad {
            run.fresh = true;
            self.terminated = false;
        }
        if run.step == EditStep::GetTextExt {
            match r {
                EditResult::Extent { rect, clipped } => {
                    if !(clipped && run.kind == EditKind::SetText) {
                        self.caret_probe_fails = 0;
                    }
                    let unseen: bool = clipped || (rect.left == 0 && rect.top == 0 && rect.right
                        == 0 && rect.bottom == 0);
                    run.caret = if unseen {
                        None
                    } else {
                        Some(to_caret(rect))
                    };
                },
                EditResult::Good => {
                    run.caret = None;
                },
                EditResult::Bad => {
                    run.caret = None;
                    if self.caret_probe_fails < u8::MAX {
                        self.caret_probe_fails = self.caret_probe_fails + 1;
                    }
                },
            }
        }
        if run.step != EditStep::Done && next == EditStep::Done {
            match run.kind {
                EditKind::Finish => {
                    self.started = false;
                },
                EditKind::SetText => {
                    if run.fresh {
                        self.started = true;
                    }
                },
                EditKind::Reposition => {},
            }
        }
        run.step = next;
    }

    /// The program has ended the composition.
    pub fn on_composition_terminated(&mut self)
        ensures
            *final(self) == (Composition { started: false, terminated: true, ..*old(self) }),
    {
        self.started = false;
        self.terminated = true;
    }
}

/// How far a step is from the end of its session.
pub open spec fn steps_left(s: EditStep) -> nat {
    match s {
        EditStep::GetSelection => 10,
        EditStep::CastContext => 9,
        EditStep::StartComposition => 8,
        EditStep::GetRange => 7,
        EditStep::SetText => 6,
        EditStep::Collapse => 5,
        EditStep::SetSelection => 4,
        EditStep::EndComposition => 1,
        EditStep::GetActiveView => 3,
        EditStep::GetTextExt => 2,
        EditStep::Done => 0,
        EditStep::Failed => 0,
    }
}

/// An edit session ends, and one that fails leaves whether there is a composition as it was.
pub proof fn law_edit_session(c: Composition, run: EditRun, r: EditResult)
    ensures
        steps_left(run.step) > 0 ==> steps_left(run_after(c, run, r).step) < steps_left(run.step),
        run_after(c, run, r).step == EditStep::Failed ==> composition_after(c, run, r).started
            == c.started,
{
}

/// After three failures in a row the caret is asked for no more: neither while typing nor when
/// the layout changes.
pub proof fn law_probing_stops(c: Composition, step: EditStep, r: EditResult)
    requires
        c.caret_probe_fails >= CARET_PROBE_FAIL_LIMIT,
        step != EditStep::GetActiveView,
    ensures
        c.asking() is None,
        next_step(EditKind::SetText, step, r, c.caret_probe_fails) != EditStep::GetActiveView,
        next_step(EditKind::SetText, step, r, c.caret_probe_fails) != EditStep::GetTextExt,
{
}

/// One measurement that succeeds makes up for all failures before it, and a text that is out of
/// the view costs none.
pub proof fn law_success_forgives(c: Composition, kind: EditKind, rect: Rect, clipped: bool)
    ensures
        fails_after(kind, EditResult::Extent { rect, clipped: false }, c.caret_probe_fails) == 0,
        fails_after(kind, EditResult::Extent { rect, clipped }, c.caret_probe_fails)
            <= c.caret_probe_fails,
{
}

/// Ending a composition writes to the document before it ends: the end comes only after the
/// text and the place of the caret were set.
pub proof fn law_text_before_end(step: EditStep, r: EditResult, fails: u8)
    ensures
        next_step(EditKind::Finish, step, r, fails) == EditStep::EndComposition ==> step
            == EditStep::SetSelection && !(r is Bad),
        next_step(EditKind::Finish, step, r, fails) == EditStep::SetSelection ==> step
            == EditStep::Collapse,
        next_step(EditKind::Finish, step, r, fails) == EditStep::Collapse ==> step
            == EditStep::SetText,
{
}

/// A session and its composition after results came in, one for each step.
pub open spec fn edited(c: Composition, run: EditRun, results: Seq<EditResult>) -> (
    Composition,
    EditRun,
)
    decreases results.len(),
{
    if results.len() == 0 {
        (c, run)
    } else {
        edited(
            composition_after(c, run, results[0]),
            run_after(c, run, results[0]),
            results.skip(1),
        )
    }
}

/// The steps that a session goes through while results come in, one for each step.
pub open spec fn steps_taken(c: Composition, run: EditRun, results: Seq<EditResult>) -> Seq<
    EditStep,
>
    decreases results.len(),
{
    if results.len() == 0 {
        Seq::empty()
    } else {
        seq![run.step] + steps_taken(
            composition_after(c, run, results[0]),
            run_after(c, run, results[0]),
            results.skip(1),
        )
    }
}

/// Whether no result is bad.
pub open spec fn all_well(results: Seq<EditResult>) -> bool {
    forall|i: int| 0 <= i < results.len() ==> !((#[trigger] results[i]) is Bad)
}

/// What a step does to a document: a step that writes changes its text, its caret or the
/// composition in it; the others only look.
pub open spec fn writes(step: EditStep) -> bool {
    step == EditStep::StartComposition || step == EditStep::SetText || step
        == EditStep::SetSelection || step == EditStep::EndComposition
}

/// Whether a step is one of a session of a kind. Ending a composition starts none and measures
/// nothing; showing a text ends none; measuring writes nothing.
pub open spec fn belongs(kind: EditKind, step: EditStep) -> bool {
    &&& step != EditStep::Done
    &&& step != EditStep::Failed
    &&& kind == EditKind::Finish ==> step == EditStep::GetRange || step == EditStep::SetText || step
        == EditStep::Collapse || step == EditStep::SetSelection || step == EditStep::EndComposition
    &&& kind == EditKind::SetText ==> step != EditStep::EndComposition
    &&& kind == EditKind::Reposition ==> step == EditStep::GetRange || step == EditStep::Collapse
        || step == EditStep::GetActiveView || step == EditStep::GetTextExt
}

/// Ending a composition, by putting a text in or by taking it out: where every step goes well,
/// the text is written, the caret goes behind it, the composition is ended in the document, and
/// only then is there none.
pub proof fn law_finishing_writes_and_ends(c: Composition, results: Seq<EditResult>)
    requires
        c.started,
        results.len() == 5,
        all_well(results),
    ensures
        steps_taken(c, c.finishing(), results) == seq![
            EditStep::GetRange,
            EditStep::SetText,
            EditStep::Collapse,
            EditStep::SetSelection,
            EditStep::EndComposition,
        ],
        edited(c, c.finishing(), results).1.step == EditStep::Done,
        !edited(c, c.finishing(), results).0.started,
{
    let a = c.finishing();
    let b = EditRun { step: EditStep::SetText, ..a };
    let d = EditRun { step: EditStep::Collapse, ..a };
    one_step(c, a, results);
    one_step(c, b, results.skip(1));
    one_step(c, d, results.skip(1).skip(1));
    let last = results.skip(1).skip(1).skip(1);
    one_step(c, EditRun { step: EditStep::SetSelection, ..a }, last);
    let e = EditRun { step: EditStep::EndComposition, ..a };
    one_step(c, e, last.skip(1));
    assert(last.skip(1).skip(1).len() == 0);
    assert(steps_taken(c, a, results) =~= seq![
        EditStep::GetRange,
        EditStep::SetText,
        EditStep::Collapse,
        EditStep::SetSelection,
        EditStep::EndComposition,
    ]);
}

/// The first result moves a session on by its step.
proof fn one_step(c: Composition, run: EditRun, results: Seq<EditResult>)
    requires
        results.len() > 0,
        all_well(results),
    ensures
        edited(c, run, results) == edited(
            composition_after(c, run, results[0]),
            run_after(c, run, results[0]),
            results.skip(1),
        ),
        steps_taken(c, run, results) == seq![run.step] + steps_taken(
            composition_after(c, run, results[0]),
            run_after(c, run, results[0]),
            results.skip(1),
        ),
        !(results[0] is Bad),
        all_well(results.skip(1)),
        results.skip(1).len() == results.len() - 1,
{
    assert forall|i: int| 0 <= i < results.skip(1).len() implies !((#[trigger] results.skip(
        1,
    )[i]) is Bad) by {
        assert(results.skip(1)[i] == results[i + 1]);
    }
}

/// What a session may come to, step by step. It is done only where its work is: a text was shown
/// once the caret was put behind it, a composition was ended in the document, a caret was
/// measured. Nothing that an earlier step has to give is used before that step went well. While
/// typing, a measurement that fails does not undo the text; anything else that fails ends the
/// session. Whatever comes, a session takes only steps of its kind.
pub proof fn law_steps_build_on_each_other(kind: EditKind, step: EditStep, r: EditResult, fails: u8)
    requires
        belongs(kind, step),
    ensures
        ({
            let next = next_step(kind, step, r, fails);
            let good = !(r is Bad);
            let looking = step == EditStep::GetActiveView || step == EditStep::GetTextExt;
            let typing = kind == EditKind::SetText;
            &&& next == EditStep::Done || next == EditStep::Failed || belongs(kind, next)
            &&& next == EditStep::Failed <==> r is Bad && !(looking && typing)
            &&& next == EditStep::Done && kind == EditKind::Finish ==> step
                == EditStep::EndComposition && good
            &&& next == EditStep::Done && typing ==> looking || (step == EditStep::SetSelection
                && good && fails >= 3)
            &&& next == EditStep::Done && kind == EditKind::Reposition ==> step
                == EditStep::GetTextExt && good
            &&& good && step == EditStep::GetRange && kind != EditKind::Reposition ==> next
                == EditStep::SetText
            &&& next == EditStep::GetSelection ==> false
            &&& next == EditStep::CastContext ==> step == EditStep::GetSelection && good
            &&& next == EditStep::StartComposition ==> step == EditStep::CastContext && good
            &&& next == EditStep::GetRange ==> step == EditStep::StartComposition && good
            &&& next == EditStep::SetText ==> step == EditStep::GetRange && good
            &&& next == EditStep::Collapse ==> good && step == if kind == EditKind::Reposition {
                EditStep::GetRange
            } else {
                EditStep::SetText
            }
            &&& next == EditStep::SetSelection ==> step == EditStep::Collapse && good
            &&& next == EditStep::EndComposition ==> step == EditStep::SetSelection && good
            &&& next == EditStep::GetActiveView ==> good && step == if typing {
                EditStep::SetSelection
            } else {
                EditStep::Collapse
            }
            &&& next == EditStep::GetTextExt ==> step == EditStep::GetActiveView && good
        }),
{
}

/// Showing a text: the steps that write are taken, in their order. Where there is no composition
/// yet, one is started first; the caret is measured behind them unless the program is known not
/// to tell, and then all is done.
pub proof fn law_showing_starts_and_writes(c: Composition, results: Seq<EditResult>)
    requires
        all_well(results),
        results.len() == 7,
    ensures
        ({
            let fresh = EditRun {
                kind: EditKind::SetText,
                step: EditStep::GetSelection,
                fresh: false,
                caret: None,
            };
            let shown = edited(c, fresh, results);
            &&& steps_taken(c, fresh, results) == seq![
                EditStep::GetSelection,
                EditStep::CastContext,
                EditStep::StartComposition,
                EditStep::GetRange,
                EditStep::SetText,
                EditStep::Collapse,
                EditStep::SetSelection,
            ]
            &&& !shown.0.terminated
            &&& shown.1.fresh
            &&& c.caret_probe_fails >= 3 ==> shown.1.step == EditStep::Done && shown.0.started
            &&& c.caret_probe_fails < 3 ==> shown.1.step == EditStep::GetActiveView
        }),
{
    let a = EditRun {
        kind: EditKind::SetText,
        step: EditStep::GetSelection,
        fresh: false,
        caret: None,
    };
    let r1 = results.skip(1);
    let r2 = r1.skip(1);
    let r3 = r2.skip(1);
    let d = Composition { terminated: false, ..c };
    let f = EditRun { step: EditStep::GetRange, fresh: true, ..a };
    one_step(c, a, results);
    one_step(c, EditRun { step: EditStep::CastContext, ..a }, r1);
    one_step(c, EditRun { step: EditStep::StartComposition, ..a }, r2);
    writing(d, f, r3);
    assert(steps_taken(c, a, results) =~= seq![
        EditStep::GetSelection,
        EditStep::CastContext,
        EditStep::StartComposition,
        EditStep::GetRange,
        EditStep::SetText,
        EditStep::Collapse,
        EditStep::SetSelection,
    ]);
}

/// With a composition, showing a text writes it over what is shown and puts the caret behind it;
/// the composition stays.
pub proof fn law_showing_writes_over(c: Composition, results: Seq<EditResult>)
    requires
        all_well(results),
        results.len() == 4,
    ensures
        ({
            let going = EditRun {
                kind: EditKind::SetText,
                step: EditStep::GetRange,
                fresh: false,
                caret: None,
            };
            let shown = edited(c, going, results);
            &&& steps_taken(c, going, results) == seq![
                EditStep::GetRange,
                EditStep::SetText,
                EditStep::Collapse,
                EditStep::SetSelection,
            ]
            &&& shown.0 == c
            &&& c.caret_probe_fails >= 3 ==> shown.1.step == EditStep::Done
            &&& c.caret_probe_fails < 3 ==> shown.1.step == EditStep::GetActiveView
        }),
{
    let a = EditRun {
        kind: EditKind::SetText,
        step: EditStep::GetRange,
        fresh: false,
        caret: None,
    };
    writing(c, a, results);
}

proof fn writing(c: Composition, a: EditRun, results: Seq<EditResult>)
    requires
        all_well(results),
        results.len() == 4,
        a.kind == EditKind::SetText,
        a.step == EditStep::GetRange,
    ensures
        steps_taken(c, a, results) == seq![
            EditStep::GetRange,
            EditStep::SetText,
            EditStep::Collapse,
            EditStep::SetSelection,
        ],
        ({
            let shown = edited(c, a, results);
            &&& shown.1.fresh == a.fresh
            &&& c.caret_probe_fails >= 3 ==> shown.1.step == EditStep::Done && shown.0
                == (Composition { started: c.started || a.fresh, ..c })
            &&& c.caret_probe_fails < 3 ==> shown.1.step == EditStep::GetActiveView && shown.0 == c
        }),
{
    let r1 = results.skip(1);
    let r2 = r1.skip(1);
    let r3 = r2.skip(1);
    one_step(c, a, results);
    one_step(c, EditRun { step: EditStep::SetText, ..a }, r1);
    one_step(c, EditRun { step: EditStep::Collapse, ..a }, r2);
    one_step(c, EditRun { step: EditStep::SetSelection, ..a }, r3);
    assert(r3.skip(1).len() == 0);
    assert(steps_taken(c, a, results) =~= seq![
        EditStep::GetRange,
        EditStep::SetText,
        EditStep::Collapse,
        EditStep::SetSelection,
    ]);
}

/// Measuring where the caret is only looks, whatever comes of its steps: the document stays as
/// it is, and so does whether there is a composition.
pub proof fn law_measuring_writes_nothing(c: Composition, run: EditRun, r: EditResult)
    requires
        run.kind == EditKind::Reposition,
        !writes(run.step),
        run.step == EditStep::GetRange || run.step == EditStep::Collapse || run.step
            == EditStep::GetActiveView || run.step == EditStep::GetTextExt,
    ensures
        !writes(run_after(c, run, r).step),
        run_after(c, run, r).kind == EditKind::Reposition,
        composition_after(c, run, r).started == c.started,
        composition_after(c, run, r).terminated == c.terminated,
        !(r is Bad) && run.step == EditStep::GetRange ==> run_after(c, run, r).step
            == EditStep::Collapse,
        !(r is Bad) && run.step == EditStep::Collapse ==> run_after(c, run, r).step
            == EditStep::GetActiveView,
        !(r is Bad) && run.step == EditStep::GetActiveView ==> run_after(c, run, r).step
            == EditStep::GetTextExt,
        !(r is Bad) && run.step == EditStep::GetTextExt ==> run_after(c, run, r).step
            == EditStep::Done,
{
}

/// A step changes whether there is a composition only as the last of its session: one that ends
/// a composition leaves none, one that has started a composition leaves it. A composition that
/// the program had ended counts as ended until another is started.
pub proof fn law_composition_comes_and_goes(c: Composition, run: EditRun, r: EditResult)
    ensures
        ({
            let d = composition_after(c, run, r);
            let next = run_after(c, run, r);
            let over = run.step != EditStep::Done && next.step == EditStep::Done;
            let starts = run.step == EditStep::StartComposition && !(r is Bad);
            &&& !over ==> d.started == c.started
            &&& over && run.kind == EditKind::Finish ==> !d.started
            &&& over && run.kind == EditKind::SetText ==> d.started == (c.started || next.fresh)
            &&& next.fresh == (run.fresh || starts)
            &&& d.terminated == (c.terminated && !starts)
            &&& next.kind == run.kind
            &&& run.step != EditStep::GetTextExt ==> d.caret_probe_fails == c.caret_probe_fails
                && next.caret == run.caret
        }),
{
}

/// A caret that is measured stands where the text was found: its corner is the corner of the
/// text, and it reaches to the text's other corner. A text outside the view, one without a place
/// and a failed measurement give no caret; only a failure counts as one.
pub proof fn law_caret_where_the_text_is(c: Composition, run: EditRun, rect: Rect, clipped: bool)
    requires
        run.step == EditStep::GetTextExt,
    ensures
        ({
            let seen = EditResult::Extent { rect, clipped };
            let next = run_after(c, run, seen);
            let nowhere = rect.left == 0 && rect.top == 0 && rect.right == 0 && rect.bottom == 0;
            &&& clipped || nowhere ==> next.caret is None
            &&& !clipped && !nowhere ==> {
                &&& next.caret is Some
                &&& next.caret->0.x == rect.left
                &&& next.caret->0.y == rect.top
                &&& i32::MIN <= rect.right - rect.left <= i32::MAX ==> next.caret->0.x
                    + next.caret->0.w == rect.right
                &&& i32::MIN <= rect.bottom - rect.top <= i32::MAX ==> next.caret->0.y
                    + next.caret->0.h == rect.bottom
            }
            &&& run_after(c, run, EditResult::Bad).caret is None
            &&& composition_after(c, run, seen).caret_probe_fails <= c.caret_probe_fails
            &&& !clipped ==> composition_after(c, run, seen).caret_probe_fails == 0
            &&& c.caret_probe_fails < 255 ==> composition_after(
                c,
                run,
                EditResult::Bad,
            ).caret_probe_fails == c.caret_probe_fails + 1
        }),
{
}

/// The caret is asked for exactly where there is a composition and fewer than three measurements
/// in a row have failed.
pub proof fn law_caret_is_asked_for(c: Composition)
    ensures
        c.asking() is Some <==> c.started && c.caret_probe_fails < 3,
        c.asking() matches Some(run) ==> run.kind == EditKind::Reposition && run.step
            == EditStep::GetRange && run.caret is None,
        c.finishing().kind == EditKind::Finish,
        c.finishing().step == EditStep::Done <==> !c.started,
{
}

/// A session that is over stays so, as it ended, whatever else comes back.
pub proof fn law_over_is_over(kind: EditKind, r: EditResult, fails: u8)
    ensures
        next_step(kind, EditStep::Done, r, fails) == EditStep::Done,
        next_step(kind, EditStep::Failed, r, fails) == EditStep::Failed,
{
}

/// The caret is measured from the beginning: with a composition, in a program that has told it
/// before, and knowing nothing yet.
pub proof fn law_measuring_begins(c: Composition)
    ensures
        c.asking() is Some <==> c.started && c.caret_probe_fails < 3,
        c.asking() matches Some(run) ==> run.kind == EditKind::Reposition && run.step
            == EditStep::GetRange && !run.fresh && run.caret is None,
{
}

} // verus!
