//! The window that shows the candidates.

use vstd::prelude::*;

use crate::geometry;
use crate::geometry::{client_pos, in_rounded_rect, saturate, Rect};
use crate::ime::Orientation;
use crate::session_bridge::CaretRect;
use crate::text;
use crate::text::{chars_of, copy_list, join3, same_text, to_decimal};

verus! {

/// What there is to show.
#[derive(Debug)]
pub struct UiSnapshot {
    /// What was typed, with apostrophes between the syllables.
    pub reading: String,
    /// The candidates of the page.
    pub candidates: Vec<String>,
    /// The row that is marked.
    pub selected: usize,
    /// The number of the page, from 0.
    pub page: usize,
    pub page_count: usize,
    pub page_size: usize,
    /// The candidates of all pages.
    pub all_candidates: Vec<String>,
    /// Whether the rows stand below or beside each other.
    pub orientation: Orientation,
}

/// What there is to show, with texts by what they hold.
#[verifier::ext_equal]
pub ghost struct Snapshot {
    pub reading: Seq<char>,
    pub candidates: Seq<Seq<char>>,
    pub selected: usize,
    pub page: usize,
    pub page_count: usize,
    pub page_size: usize,
    pub all_candidates: Seq<Seq<char>>,
    pub orientation: Orientation,
}

impl View for UiSnapshot {
    type V = Snapshot;

    open spec fn view(&self) -> Snapshot {
        Snapshot {
            reading: self.reading@,
            candidates: text::views(self.candidates@),
            selected: self.selected,
            page: self.page,
            page_count: self.page_count,
            page_size: self.page_size,
            all_candidates: text::views(self.all_candidates@),
            orientation: self.orientation,
        }
    }
}

impl Snapshot {
    /// Nothing to show: neither a reading nor a candidate.
    pub open spec fn blank(self) -> bool {
        self.reading.len() == 0 && self.candidates.len() == 0
    }
}

impl UiSnapshot {
    /// Nothing to show.
    pub fn blank() -> (r: UiSnapshot)
        ensures
            r@ == (Snapshot {
                reading: Seq::empty(),
                candidates: Seq::empty(),
                selected: 0,
                page: 0,
                page_count: 0,
                page_size: 0,
                all_candidates: Seq::empty(),
                orientation: Orientation::Vertical,
            }),
    {
        let r: UiSnapshot = UiSnapshot {
            reading: String::new(),
            candidates: Vec::new(),
            selected: 0,
            page: 0,
            page_count: 0,
            page_size: 0,
            all_candidates: Vec::new(),
            orientation: Orientation::Vertical,
        };
        assert(r@.reading =~= Seq::empty());
        assert(r@.candidates =~= Seq::empty());
        assert(r@.all_candidates =~= Seq::empty());
        r
    }

    /// Whether there is nothing to show.
    pub fn is_blank(&self) -> (r: bool)
        ensures
            r == self@.blank(),
    {
        self.reading.as_str().is_empty() && self.candidates.len() == 0
    }

    /// The same once more.
    pub fn copy(&self) -> (r: UiSnapshot)
        ensures
            r@ == self@,
    {
        UiSnapshot {
            reading: self.reading.clone(),
            candidates: copy_list(&self.candidates),
            selected: self.selected,
            page: self.page,
            page_count: self.page_count,
            page_size: self.page_size,
            all_candidates: copy_list(&self.all_candidates),
            orientation: self.orientation,
        }
    }

    /// Lays the rows out as the engine is set, and below each other where there is no engine.
    pub fn orient(&mut self, setting: Option<Orientation>)
        ensures
            final(self)@ == (Snapshot {
                orientation: match setting {
                    Some(o) => o,
                    None => Orientation::Vertical,
                },
                ..old(self)@
            }),
    {
        self.orientation = match setting {
            Some(o) => o,
            None => Orientation::Vertical,
        };
    }
}

/// A text without its apostrophes.
pub open spec fn without_apostrophes(t: Seq<char>) -> Seq<char>
    decreases t.len(),
{
    if t.len() == 0 {
        t
    } else if t.last() == '\'' {
        without_apostrophes(t.drop_last())
    } else {
        without_apostrophes(t.drop_last()).push(t.last())
    }
}

fn drop_apostrophes(t: &str) -> (r: String)
    ensures
        r@ == without_apostrophes(t@),
{
    let cs: Vec<char> = chars_of(t);
    let mut out: String = String::new();
    let mut i: usize = 0;
    assert(cs@.take(0) =~= Seq::empty());
    assert(out@ =~= Seq::empty());
    while i < cs.len()
        invariant
            i <= cs@.len(),
            out@ == without_apostrophes(cs@.take(i as int)),
        decreases cs@.len() - i,
    {
        let ghost next = cs@.take(i + 1);
        assert(next.drop_last() =~= cs@.take(i as int));
        assert(next.last() == cs@[i as int]);
        if cs[i] != '\'' {
            out.push(cs[i]);
        }
        i = i + 1;
    }
    assert(cs@.take(cs@.len() as int) =~= t@);
    out
}

/// The text of a row: the candidate, with its number before it unless it is what was typed.
pub open spec fn label(reading: Seq<char>, index: int, cand: Seq<char>) -> Seq<char> {
    if cand == without_apostrophes(reading) {
        cand
    } else {
        text::decimal((index + 1) as nat) + "."@ + cand
    }
}

/// The candidate window.
pub struct CandwinCandidateWindow {
    /// Whether the window has been made.
    pub window: bool,
    pub snap: UiSnapshot,
    pub visible: bool,
    /// Where the caret was when the window was last placed by it.
    pub last_caret: Option<CaretRect>,
    /// Where the rows were drawn.
    pub rows: Vec<Rect>,
    /// Whether the window keeps silent.
    pub suppressed: bool,
}

/// What is done with the window.
#[derive(Clone, Copy, Debug, PartialEq, Eq)]
pub enum WindowCall {
    Nothing,
    /// Draw it at the caret, and show it.
    ShowAt(CaretRect),
    /// Draw it where it stands.
    Redraw,
    /// Move it to the caret, as it is.
    MoveTo(CaretRect),
    Hide,
}

impl CandwinCandidateWindow {
    /// Whether the rows, and whether the window keeps silent, are the same.
    pub open spec fn same_rest(self, other: CandwinCandidateWindow) -> bool {
        self.rows@ == other.rows@ && self.suppressed == other.suppressed
    }

    /// A window that has not been made.
    pub fn new() -> (r: CandwinCandidateWindow)
        ensures
            !r.window,
            r.snap@ == (Snapshot {
                reading: Seq::empty(),
                candidates: Seq::empty(),
                selected: 0,
                page: 0,
                page_count: 0,
                page_size: 0,
                all_candidates: Seq::empty(),
                orientation: Orientation::Vertical,
            }),
            !r.visible,
            r.last_caret is None,
            r.rows@.len() == 0,
            !r.suppressed,
    {
        CandwinCandidateWindow {
            window: false,
            snap: UiSnapshot::blank(),
            visible: false,
            last_caret: None,
            rows: Vec::new(),
            suppressed: false,
        }
    }

    /// Shows candidates at the caret. `made` tells whether the window could be made; it is
    /// looked at only where there is none. A window that keeps silent does nothing.
    pub fn show(&mut self, snap: &UiSnapshot, caret: CaretRect, made: bool) -> (r: WindowCall)
        ensures
            final(self).same_rest(*old(self)),
            old(self).suppressed ==> *final(self) == *old(self) && r == WindowCall::Nothing,
            !old(self).suppressed && snap@.blank() ==> {
                &&& r == (if old(self).window {
                    WindowCall::Hide
                } else {
                    WindowCall::Nothing
                })
                &&& !final(self).visible
                &&& final(self).window == old(self).window
                &&& final(self).snap == old(self).snap
                &&& final(self).last_caret == old(self).last_caret
            },
            !old(self).suppressed && !snap@.blank() ==> {
                &&& final(self).snap@ == snap@
                &&& final(self).last_caret == Some(caret)
                &&& final(self).window == (old(self).window || made)
                &&& final(self).visible == (old(self).visible || final(self).window)
                &&& r == (if final(self).window {
                    WindowCall::ShowAt(caret)
                } else {
                    WindowCall::Nothing
                })
            },
    {
        if self.suppressed {
            return WindowCall::Nothing;
        }
        if snap.is_blank() {
            return self.conceal();
        }
        self.snap = snap.copy();
        self.last_caret = Some(caret);
        self.window = self.window || made;
        if !self.window {
            return WindowCall::Nothing;
        }
        self.visible = true;
        WindowCall::ShowAt(caret)
    }

    /// Shows other candidates where the window stands.
    pub fn update(&mut self, snap: &UiSnapshot) -> (r: WindowCall)
        ensures
            final(self).same_rest(*old(self)),
            final(self).window == old(self).window,
            final(self).visible == old(self).visible,
            final(self).last_caret == old(self).last_caret,
            old(self).suppressed ==> final(self).snap == old(self).snap && r
                == WindowCall::Nothing,
            !old(self).suppressed ==> {
                &&& final(self).snap@ == snap@
                &&& r == (if old(self).window && old(self).visible {
                    WindowCall::Redraw
                } else {
                    WindowCall::Nothing
                })
            },
    {
        if self.suppressed {
            return WindowCall::Nothing;
        }
        self.snap = snap.copy();
        if !self.window || !self.visible {
            return WindowCall::Nothing;
        }
        WindowCall::Redraw
    }

    /// Moves the window to where the caret has gone.
    pub fn move_to(&mut self, caret: CaretRect) -> (r: WindowCall)
        ensures
            final(self).same_rest(*old(self)),
            final(self).window == old(self).window,
            final(self).visible == old(self).visible,
            final(self).snap == old(self).snap,
            old(self).window && old(self).visible ==> final(self).last_caret == Some(caret) && r
                == WindowCall::MoveTo(caret),
            !(old(self).window && old(self).visible) ==> final(self).last_caret
                == old(self).last_caret && r == WindowCall::Nothing,
    {
        if !self.window || !self.visible {
            return WindowCall::Nothing;
        }
        self.last_caret = Some(caret);
        WindowCall::MoveTo(caret)
    }

    /// Takes the window off the screen.
    pub fn conceal(&mut self) -> (r: WindowCall)
        ensures
            final(self).same_rest(*old(self)),
            final(self).window == old(self).window,
            !final(self).visible,
            final(self).snap == old(self).snap,
            final(self).last_caret == old(self).last_caret,
            r == (if old(self).window {
                WindowCall::Hide
            } else {
                WindowCall::Nothing
            }),
    {
        self.visible = false;
        if self.window {
            WindowCall::Hide
        } else {
            WindowCall::Nothing
        }
    }

    /// Draws the window anew, in another theme or with another mark, if it shows.
    pub fn repaint(&self) -> (r: WindowCall)
        ensures
            r == (if self.window && self.visible {
                WindowCall::Redraw
            } else {
                WindowCall::Nothing
            }),
    {
        if self.window && self.visible {
            WindowCall::Redraw
        } else {
            WindowCall::Nothing
        }
    }

    /// Whether the window shows.
    pub fn is_visible(&self) -> (r: bool)
        ensures
            r == self.visible,
    {
        self.visible
    }

    /// Makes the window keep silent, or speak again. One that begins to keep silent is taken off
    /// the screen.
    pub fn set_suppressed(&mut self, suppressed: bool) -> (r: WindowCall)
        ensures
            final(self).suppressed == suppressed,
            final(self).window == old(self).window,
            final(self).snap == old(self).snap,
            final(self).last_caret == old(self).last_caret,
            final(self).rows == old(self).rows,
            final(self).visible == (old(self).visible && (!suppressed || old(self).suppressed)),
            r == (if suppressed && !old(self).suppressed && old(self).window {
                WindowCall::Hide
            } else {
                WindowCall::Nothing
            }),
    {
        if self.suppressed == suppressed {
            return WindowCall::Nothing;
        }
        self.suppressed = suppressed;
        if suppressed {
            self.visible = false;
            if self.window {
                return WindowCall::Hide;
            }
        }
        WindowCall::Nothing
    }

    /// The text of a row.
    pub fn candidate_label(&self, index: usize, cand: &str) -> (r: String)
        requires
            index < usize::MAX,
        ensures
            r@ == label(self.snap@.reading, index as int, cand@),
    {
        let typed: String = drop_apostrophes(self.snap.reading.as_str());
        if same_text(cand, typed.as_str()) {
            cand.to_owned()
        } else {
            let number: String = to_decimal((index + 1) as u64);
            join3(number.as_str(), ".", cand)
        }
    }

    /// The texts of all rows, in order: these are measured to place the rows.
    pub fn row_labels(&self) -> (r: Vec<String>)
        ensures
            text::views(r@) == Seq::new(
                self.snap@.candidates.len(),
                |i: int| label(self.snap@.reading, i, self.snap@.candidates[i]),
            ),
    {
        let mut out: Vec<String> = Vec::new();
        let mut i: usize = 0;
        while i < self.snap.candidates.len()
            invariant
                i <= self.snap.candidates@.len(),
                out@.len() == i,
                forall|k: int|
                    0 <= k < i ==> (#[trigger] out@[k])@ == label(
                        self.snap@.reading,
                        k,
                        self.snap@.candidates[k],
                    ),
            decreases self.snap.candidates@.len() - i,
        {
            let t: String = self.candidate_label(i, self.snap.candidates[i].as_str());
            out.push(t);
            i = i + 1;
        }
        assert(text::views(out@) =~= Seq::new(
            self.snap@.candidates.len(),
            |i: int| label(self.snap@.reading, i, self.snap@.candidates[i]),
        ));
        out
    }

    /// The text that tells the page, if there is more than one: the number of the page from 1,
    /// a stroke and how many there are.
    pub fn page_label(&self) -> (r: Option<String>)
        requires
            self.snap.page < usize::MAX,
        ensures
            self.snap.page_count <= 1 ==> r is None,
            self.snap.page_count > 1 ==> (r matches Some(t) && t@ == text::decimal(
                (self.snap.page + 1) as nat,
            ) + "/"@ + text::decimal(self.snap.page_count as nat)),
    {
        if self.snap.page_count > 1 {
            let page: String = to_decimal((self.snap.page + 1) as u64);
            let count: String = to_decimal(self.snap.page_count as u64);
            Some(join3(page.as_str(), "/", count.as_str()))
        } else {
            None
        }
    }

    /// Takes a drawing of the window: how large it is, and where the rows stand in it. Nothing
    /// comes of it where there is nothing to show, or where it is empty.
    pub fn frame(&mut self, size: Option<(u32, u32)>, rows: Vec<Rect>) -> (r: Option<(u32, u32)>)
        ensures
            final(self).window == old(self).window,
            final(self).visible == old(self).visible,
            final(self).snap == old(self).snap,
            final(self).last_caret == old(self).last_caret,
            final(self).suppressed == old(self).suppressed,
            ({
                let good = !old(self).snap@.blank() && (size matches Some(s) && s.0 != 0 && s.1
                    != 0);
                &&& r == (if good {
                    size
                } else {
                    None
                })
                &&& final(self).rows@ == (if good {
                    rows@
                } else {
                    old(self).rows@
                })
            }),
    {
        if self.snap.is_blank() {
            return None;
        }
        match size {
            Some((w, h)) => {
                if w == 0 || h == 0 {
                    return None;
                }
                self.rows = rows;
                Some((w, h))
            },
            None => None,
        }
    }
}

/// The size that was measured for a text: that of the first row with this text, and nothing for
/// a text that no row has.
pub open spec fn measured_size(
    labels: Seq<Seq<char>>,
    sizes: Seq<(i32, i32)>,
    t: Seq<char>,
) -> (i32, i32)
    decreases labels.len(),
{
    if labels.len() == 0 || sizes.len() == 0 {
        (0, 0)
    } else if labels[0] == t {
        sizes[0]
    } else {
        measured_size(labels.skip(1), sizes.skip(1), t)
    }
}

/// The size that was measured for a text.
pub fn size_of_label(labels: &Vec<String>, sizes: &Vec<(i32, i32)>, t: &str) -> (r: (i32, i32))
    ensures
        r == measured_size(text::views(labels@), sizes@, t@),
{
    let ghost ls = text::views(labels@);
    let mut i: usize = 0;
    assert(ls.skip(0) =~= ls);
    assert(sizes@.skip(0) =~= sizes@);
    while i < labels.len() && i < sizes.len()
        invariant
            i <= labels@.len(),
            i <= sizes@.len(),
            ls == text::views(labels@),
            measured_size(ls, sizes@, t@) == measured_size(
                ls.skip(i as int),
                sizes@.skip(i as int),
                t@,
            ),
        decreases labels@.len() - i,
    {
        assert(ls.skip(i as int)[0] == labels@[i as int]@);
        assert(sizes@.skip(i as int)[0] == sizes@[i as int]);
        assert(ls.skip(i as int).skip(1) =~= ls.skip(i + 1));
        assert(sizes@.skip(i as int).skip(1) =~= sizes@.skip(i + 1));
        if same_text(labels[i].as_str(), t) {
            return sizes[i];
        }
        i = i + 1;
    }
    (0, 0)
}

/// The work area in which the window is placed: that of the screen with the caret, or else that
/// of the first screen, or else almost everything.
pub fn placing_area(monitor: Option<Rect>, primary: Option<Rect>) -> (r: Rect)
    ensures
        r == (match monitor {
            Some(m) => m,
            None => geometry::area_or_fallback(primary),
        }),
{
    match monitor {
        Some(m) => m,
        None => match primary {
            Some(p) => p,
            None => Rect { left: 0, top: 0, right: 32767, bottom: 32767 },
        },
    }
}

/// The messages that the candidate window takes.
#[derive(Clone, Copy, Debug)]
pub enum CandMessage {
    Paint,
    EraseBackground,
    MouseActivate,
    /// Whether a point of the screen is in the window. The window's own place is not always
    /// known; `radius` is that of its corners.
    HitTest { lparam: isize, place: Option<Rect>, radius: Option<i32> },
    MouseMove,
    LeftDown,
    /// Another button was pressed.
    OtherDown,
    Other,
}

/// The message of a number.
pub fn cand_message(
    msg: u32,
    lparam: isize,
    place: Option<Rect>,
    radius: Option<i32>,
) -> (r: CandMessage)
    ensures
        r == (if msg == 0x000F {
            CandMessage::Paint
        } else if msg == 0x0014 {
            CandMessage::EraseBackground
        } else if msg == 0x0021 {
            CandMessage::MouseActivate
        } else if msg == 0x0084 {
            CandMessage::HitTest { lparam, place, radius }
        } else if msg == 0x0200 {
            CandMessage::MouseMove
        } else if msg == 0x0201 {
            CandMessage::LeftDown
        } else if msg == 0x0204 || msg == 0x0207 {
            CandMessage::OtherDown
        } else {
            CandMessage::Other
        }),
{
    match msg {
        0x000F => CandMessage::Paint,
        0x0014 => CandMessage::EraseBackground,
        0x0021 => CandMessage::MouseActivate,
        0x0084 => CandMessage::HitTest { lparam, place, radius },
        0x0200 => CandMessage::MouseMove,
        0x0201 => CandMessage::LeftDown,
        0x0204 | 0x0207 => CandMessage::OtherDown,
        _ => CandMessage::Other,
    }
}

/// What the candidate window has to do.
#[derive(Clone, Copy, Debug, PartialEq, Eq, Structural)]
pub struct CandReply {
    /// The answer; `None` where the system is to answer.
    pub reply: Option<isize>,
    /// Tell the session that this row is pointed at, and draw the window anew.
    pub hover: Option<usize>,
    /// Tell the session that this row was chosen.
    pub click: Option<usize>,
}

/// The answer that a press on the window leaves the program active.
pub const MA_NOACTIVATE: isize = 3;

/// The answer that a point is in the window.
pub const HTCLIENT: isize = 1;

/// The answer that a point belongs to what is below the window.
pub const HTTRANSPARENT: isize = -1;

/// Whether a point of the screen is in a window with rounded corners; one whose place is not
/// known takes it.
pub open spec fn hit_reply(lparam: isize, place: Option<Rect>, radius: Option<i32>) -> isize {
    match place {
        None => HTCLIENT,
        Some(p) => if geometry::in_rounded(
            geometry::saturated(geometry::low_half(lparam as int) - p.left),
            geometry::saturated(geometry::high_half(lparam as int) - p.top),
            geometry::saturated(p.right - p.left),
            geometry::saturated(p.bottom - p.top),
            radius,
        ) {
            HTCLIENT
        } else {
            HTTRANSPARENT
        },
    }
}

fn hit_answer(lparam: isize, place: Option<Rect>, radius: Option<i32>) -> (r: isize)
    ensures
        r == hit_reply(lparam, place, radius),
{
    match place {
        None => HTCLIENT,
        Some(p) => {
            let (sx, sy) = client_pos(lparam);
            let x: i32 = saturate(sx as i64 - p.left as i64);
            let y: i32 = saturate(sy as i64 - p.top as i64);
            let w: i32 = saturate(p.right as i64 - p.left as i64);
            let h: i32 = saturate(p.bottom as i64 - p.top as i64);
            if in_rounded_rect(x, y, w, h, radius) {
                HTCLIENT
            } else {
                HTTRANSPARENT
            }
        },
    }
}

impl CandwinCandidateWindow {
    /// The window's procedure. `row` is the row at the pointer. A row that the pointer comes to
    /// is marked; a row is chosen by pressing on it. No press makes the window active.
    pub fn wnd_proc(&mut self, msg: CandMessage, row: Option<usize>) -> (r: CandReply)
        ensures
            final(self).window == old(self).window,
            final(self).visible == old(self).visible,
            final(self).last_caret == old(self).last_caret,
            final(self).same_rest(*old(self)),
            ({
                let known = row matches Some(i) && i < old(self).snap@.candidates.len();
                let moves = msg is MouseMove && known && row != Some(old(self).snap.selected);
                &&& final(self).snap@ == (Snapshot {
                    selected: if moves {
                        row->0
                    } else {
                        old(self).snap.selected
                    },
                    ..old(self).snap@
                })
                &&& r.hover == (if moves {
                    row
                } else {
                    None
                })
                &&& r.click == (if msg is LeftDown && known {
                    row
                } else {
                    None
                })
                &&& r.reply == (match msg {
                    CandMessage::EraseBackground => Some(1isize),
                    CandMessage::MouseActivate => Some(MA_NOACTIVATE),
                    CandMessage::HitTest { lparam, place, radius } => Some(
                        hit_reply(lparam, place, radius),
                    ),
                    CandMessage::Other => None::<isize>,
                    _ => Some(0isize),
                })
            }),
    {
        let mut r: CandReply = CandReply { reply: Some(0), hover: None, click: None };
        match msg {
            CandMessage::Paint | CandMessage::OtherDown => {},
            CandMessage::EraseBackground => {
                r.reply = Some(1);
            },
            CandMessage::MouseActivate => {
                r.reply = Some(MA_NOACTIVATE);
            },
            CandMessage::HitTest { lparam, place, radius } => {
                r.reply = Some(hit_answer(lparam, place, radius));
            },
            CandMessage::MouseMove => {
                if let Some(i) = row {
                    if i < self.snap.candidates.len() && i != self.snap.selected {
                        self.snap.selected = i;
                        r.hover = Some(i);
                    }
                }
            },
            CandMessage::LeftDown => {
                if let Some(i) = row {
                    if i < self.snap.candidates.len() {
                        r.click = Some(i);
                    }
                }
            },
            CandMessage::Other => {
                r.reply = None;
            },
        }
        r
    }
}

/// A snapshot is blank exactly where there is nothing to show: no reading and no candidate.
pub proof fn law_blank(s: Snapshot)
    ensures
        s.blank() <==> s.reading == Seq::<char>::empty() && s.candidates == Seq::<
            Seq<char>,
        >::empty(),
{
    if s.blank() {
        assert(s.reading =~= Seq::<char>::empty());
        assert(s.candidates =~= Seq::<Seq<char>>::empty());
    }
}

/// Only the apostrophes go, and the rest keeps its order: an apostrophe behind a text leaves
/// nothing, any other sign itself.
pub proof fn law_apostrophes_go(t: Seq<char>, c: char)
    ensures
        without_apostrophes(Seq::empty()) == Seq::<char>::empty(),
        without_apostrophes(t.push('\'')) == without_apostrophes(t),
        c != '\'' ==> without_apostrophes(t.push(c)) == without_apostrophes(t).push(c),
{
    assert(t.push('\'').drop_last() =~= t);
    assert(t.push(c).drop_last() =~= t);
}

/// A text without apostrophes stays, and none is left in one that had some.
pub proof fn law_no_apostrophe_left(t: Seq<char>)
    ensures
        forall|i: int|
            0 <= i < without_apostrophes(t).len() ==> #[trigger] without_apostrophes(t)[i] != '\'',
        (forall|i: int| 0 <= i < t.len() ==> #[trigger] t[i] != '\'') ==> without_apostrophes(t)
            == t,
    decreases t.len(),
{
    if t.len() > 0 {
        let start = t.drop_last();
        law_no_apostrophe_left(start);
        assert(start.push(t.last()) =~= t);
        let rest = without_apostrophes(start);
        if t.last() != '\'' {
            assert forall|i: int| 0 <= i < without_apostrophes(t).len() implies #[trigger]
                without_apostrophes(t)[i] != '\'' by {
                if i < rest.len() {
                    assert(rest[i] != '\'');
                }
            }
        }
        if forall|i: int| 0 <= i < t.len() ==> #[trigger] t[i] != '\'' {
            assert forall|i: int| 0 <= i < start.len() implies #[trigger] start[i] != '\'' by {
                assert(start[i] == t[i]);
            }
            assert(t.last() == t[t.len() - 1]);
        }
    }
}

/// The candidate that is the reading itself stands without a number; every other is led by its
/// number, counted from one, and a full stop.
pub proof fn law_labels_are_numbered(reading: Seq<char>, index: int, cand: Seq<char>)
    requires
        index >= 0,
    ensures
        cand == without_apostrophes(reading) ==> label(reading, index, cand) == cand,
        cand != without_apostrophes(reading) ==> {
            let number = text::decimal((index + 1) as nat);
            let l = label(reading, index, cand);
            &&& l.len() == number.len() + 1 + cand.len()
            &&& l.subrange(0, number.len() as int) == number
            &&& l[number.len() as int] == '.'
            &&& l.subrange(number.len() as int + 1, l.len() as int) == cand
        },
{
    reveal_strlit(".");
    let number = text::decimal((index + 1) as nat);
    let l = label(reading, index, cand);
    if cand != without_apostrophes(reading) {
        assert(l.subrange(0, number.len() as int) =~= number);
        assert(l.subrange(number.len() as int + 1, l.len() as int) =~= cand);
    }
}

/// A text has the size that was measured for the first label that reads like it, and none where
/// no label does.
pub proof fn law_size_is_the_measured(
    labels: Seq<Seq<char>>,
    sizes: Seq<(i32, i32)>,
    t: Seq<char>,
    i: int,
)
    requires
        labels.len() == sizes.len(),
    ensures
        0 <= i < labels.len() && labels[i] == t && (forall|j: int|
            0 <= j < i ==> #[trigger] labels[j] != t) ==> measured_size(labels, sizes, t)
            == sizes[i],
        !labels.contains(t) ==> measured_size(labels, sizes, t) == (0i32, 0i32),
    decreases labels.len(),
{
    if labels.len() > 0 {
        assert(labels.contains(labels[0]));
        if labels[0] != t {
            let rest = labels.skip(1);
            law_size_is_the_measured(rest, sizes.skip(1), t, i - 1);
            if rest.contains(t) {
                let k = choose|k: int| 0 <= k < rest.len() && rest[k] == t;
                assert(labels[k + 1] == t);
            }
            if 0 < i < labels.len() && labels[i] == t && (forall|j: int|
                0 <= j < i ==> #[trigger] labels[j] != t) {
                assert(rest[i - 1] == t);
                assert forall|j: int| 0 <= j < i - 1 implies #[trigger] rest[j] != t by {
                    assert(labels[j + 1] != t);
                }
            }
        }
    }
}

/// A point on the screen is the window's exactly where it lies in its rounded shape; where the
/// window's place is not known, it is the window's.
pub proof fn law_hit_where_shown(
    lparam: isize,
    x: int,
    y: int,
    place: Rect,
    radius: Option<i32>,
)
    requires
        0 <= x < 0x10000,
        0 <= y < 0x8000,
        lparam == y * 0x10000 + x,
        0 <= place.left < place.right,
        0 <= place.top < place.bottom,
    ensures
        hit_reply(lparam, None, radius) == HTCLIENT,
        hit_reply(lparam, Some(place), None) == HTCLIENT,
        hit_reply(lparam, Some(place), radius) == if geometry::in_rounded(
            x - place.left,
            y - place.top,
            place.width(),
            place.height(),
            radius,
        ) {
            1isize
        } else {
            -1isize
        },
{
    assert((y * 0x10000 + x) / 0x10000 == y) by (nonlinear_arith)
        requires
            0 <= x < 0x10000,
    ;
}

} // verus!
