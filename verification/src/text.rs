//! Text helpers: strings seen as sequences of characters.

use vstd::prelude::*;

verus! {

/// `String::push` appends one character at the end of the string.
pub assume_specification[ String::push ](s: &mut String, c: char)
    ensures
        final(s)@ == old(s)@.push(c),
;

/// The characters of a string, in order.
pub fn chars_of(s: &str) -> (r: Vec<char>)
    ensures
        r@ == s@,
{
    let mut out: Vec<char> = Vec::new();
    for c in it: s.chars()
        invariant
            out@ == s@.take(it.index()),
            it.seq() == s@,
    {
        out.push(c);
        assert(s@.take(it.index() + 1) =~= s@.take(it.index()).push(c));
    }
    assert(s@.take(s@.len() as int) =~= s@);
    out
}

/// The string made of the characters `from..to` of a character list.
pub fn text_of(cs: &Vec<char>, from: usize, to: usize) -> (r: String)
    requires
        from <= to <= cs@.len(),
    ensures
        r@ == cs@.subrange(from as int, to as int),
{
    let mut out: String = String::new();
    let mut i: usize = from;
    while i < to
        invariant
            from <= i <= to <= cs@.len(),
            out@ == cs@.subrange(from as int, i as int),
        decreases to - i,
    {
        out.push(cs[i]);
        assert(cs@.subrange(from as int, i + 1) =~= cs@.subrange(from as int, i as int).push(cs@[i as int]));
        i = i + 1;
    }
    out
}

/// Whether two strings hold the same characters.
pub fn same_text(a: &str, b: &str) -> (r: bool)
    ensures
        r == (a@ == b@),
{
    let x: Vec<char> = chars_of(a);
    let y: Vec<char> = chars_of(b);
    if x.len() != y.len() {
        return false;
    }
    let mut i: usize = 0;
    while i < x.len()
        invariant
            i <= x@.len(),
            x@ == a@,
            y@ == b@,
            x@.len() == y@.len(),
            forall|k: int| 0 <= k < i ==> x@[k] == y@[k],
        decreases x@.len() - i,
    {
        if x[i] != y[i] {
            return false;
        }
        i = i + 1;
    }
    assert(x@ =~= y@);
    true
}

/// `a` with its ASCII capitals turned into small letters; other characters are kept.
pub open spec fn ascii_lower(c: char) -> char {
    if 'A' <= c && c <= 'Z' {
        ((c as u8) + 32) as char
    } else {
        c
    }
}

/// Whether two texts are equal up to the case of ASCII letters.
pub open spec fn same_ignoring_case(a: Seq<char>, b: Seq<char>) -> bool {
    &&& a.len() == b.len()
    &&& forall|i: int| 0 <= i < a.len() ==> ascii_lower(#[trigger] a[i]) == ascii_lower(b[i])
}

pub(crate) fn lower(c: char) -> (r: char)
    ensures
        r == ascii_lower(c),
{
    if 'A' <= c && c <= 'Z' {
        ((c as u8) + 32) as char
    } else {
        c
    }
}

/// Whether two strings are equal up to the case of ASCII letters.
pub fn eq_ignoring_case(a: &str, b: &str) -> (r: bool)
    ensures
        r == same_ignoring_case(a@, b@),
{
    let x: Vec<char> = chars_of(a);
    let y: Vec<char> = chars_of(b);
    if x.len() != y.len() {
        return false;
    }
    let mut i: usize = 0;
    while i < x.len()
        invariant
            i <= x@.len(),
            x@ == a@,
            y@ == b@,
            x@.len() == y@.len(),
            forall|k: int| 0 <= k < i ==> ascii_lower(#[trigger] x@[k]) == ascii_lower(y@[k]),
        decreases x@.len() - i,
    {
        if lower(x[i]) != lower(y[i]) {
            assert(ascii_lower(a@[i as int]) != ascii_lower(b@[i as int]));
            return false;
        }
        i = i + 1;
    }
    true
}

/// The character of a decimal digit.
pub open spec fn digit_char(d: nat) -> char {
    (0x30 + d) as char
}

/// A number written in decimal, without leading zeros.
pub open spec fn decimal(n: nat) -> Seq<char>
    decreases n,
{
    if n < 10 {
        seq![digit_char(n)]
    } else {
        decimal(n / 10).push(digit_char(n % 10))
    }
}

/// Writes a number in decimal.
pub fn to_decimal(n: u64) -> (r: String)
    ensures
        r@ == decimal(n as nat),
    decreases n,
{
    if n < 10 {
        let mut s: String = String::new();
        s.push((0x30u8 + n as u8) as char);
        assert(s@ =~= seq![digit_char(n as nat)]);
        s
    } else {
        let mut s: String = to_decimal(n / 10);
        s.push((0x30u8 + (n % 10) as u8) as char);
        s
    }
}

/// Whether a character is white space: it has the Unicode property `White_Space`.
pub open spec fn is_space(c: char) -> bool {
    let n = c as u32;
    0x9 <= n <= 0xD || n == 0x20 || n == 0x85 || n == 0xA0 || n == 0x1680 || 0x2000 <= n <= 0x200A
        || n == 0x2028 || n == 0x2029 || n == 0x202F || n == 0x205F || n == 0x3000
}

/// Whether a character is white space.
fn is_whitespace(c: char) -> (r: bool)
    ensures
        r == is_space(c),
{
    let n: u32 = c as u32;
    (0x9 <= n && n <= 0xD) || n == 0x20 || n == 0x85 || n == 0xA0 || n == 0x1680 || (0x2000 <= n
        && n <= 0x200A) || n == 0x2028 || n == 0x2029 || n == 0x202F || n == 0x205F || n == 0x3000
}

/// A text without its leading white space.
pub open spec fn trim_start(t: Seq<char>) -> Seq<char>
    decreases t.len(),
{
    if t.len() > 0 && is_space(t[0]) {
        trim_start(t.skip(1))
    } else {
        t
    }
}

/// A text without its trailing white space.
pub open spec fn trim_end(t: Seq<char>) -> Seq<char>
    decreases t.len(),
{
    if t.len() > 0 && is_space(t.last()) {
        trim_end(t.drop_last())
    } else {
        t
    }
}

/// A text without white space at either end.
pub open spec fn trimmed(t: Seq<char>) -> Seq<char> {
    trim_end(trim_start(t))
}

/// Where the first line feed at or after `from` stands; the length of the text if there is none.
pub open spec fn next_line_feed(t: Seq<char>, from: int) -> int
    decreases t.len() - from,
{
    if 0 <= from < t.len() && t[from] != '\n' {
        next_line_feed(t, from + 1)
    } else {
        from
    }
}

/// The lines of a text from position `from` on. A line ends before a line feed, or before a
/// carriage return and line feed; the last line may lack its ending.
pub open spec fn lines_from(t: Seq<char>, from: int) -> Seq<Seq<char>>
    decreases t.len() - from,
    when 0 <= from
{
    if from >= t.len() {
        Seq::empty()
    } else {
        let end = next_line_feed(t, from);
        if from <= end < t.len() {
            let stop = if end > from && t[end - 1] == '\r' {
                end - 1
            } else {
                end
            };
            seq![t.subrange(from, stop)] + lines_from(t, end + 1)
        } else {
            seq![t.subrange(from, t.len() as int)]
        }
    }
}

/// The given lines that hold more than white space, each without white space around it.
pub open spec fn entries(lines: Seq<Seq<char>>) -> Seq<Seq<char>>
    decreases lines.len(),
{
    if lines.len() == 0 {
        Seq::empty()
    } else {
        let first = trimmed(lines[0]);
        let rest = entries(lines.skip(1));
        if first.len() > 0 {
            seq![first] + rest
        } else {
            rest
        }
    }
}

/// The views of a list of strings.
pub open spec fn views(list: Seq<String>) -> Seq<Seq<char>> {
    list.map_values(|s: String| s@)
}

/// The part of `from..to` that is left without white space at its ends.
pub(crate) fn trim_range(cs: &Vec<char>, from: usize, to: usize) -> (r: (usize, usize))
    requires
        from <= to <= cs@.len(),
    ensures
        from <= r.0 <= r.1 <= to,
        trimmed(cs@.subrange(from as int, to as int)) == cs@.subrange(r.0 as int, r.1 as int),
{
    let mut a: usize = from;
    while a < to && is_whitespace(cs[a])
        invariant
            from <= a <= to <= cs@.len(),
            trim_start(cs@.subrange(from as int, to as int)) == trim_start(
                cs@.subrange(a as int, to as int),
            ),
        decreases to - a,
    {
        assert(cs@.subrange(a as int, to as int).skip(1) =~= cs@.subrange(a + 1, to as int));
        a = a + 1;
    }
    let mut b: usize = to;
    while b > a && is_whitespace(cs[b - 1])
        invariant
            from <= a <= b <= to <= cs@.len(),
            trim_end(cs@.subrange(a as int, to as int)) == trim_end(
                cs@.subrange(a as int, b as int),
            ),
        decreases b - a,
    {
        assert(cs@.subrange(a as int, b as int).drop_last() =~= cs@.subrange(a as int, b - 1));
        b = b - 1;
    }
    (a, b)
}

/// The non-blank lines of a text, each without white space around it.
pub fn entries_of(text: &str) -> (r: Vec<String>)
    ensures
        views(r@) == entries(lines_from(text@, 0)),
{
    let cs: Vec<char> = chars_of(text);
    let n: usize = cs.len();
    let mut out: Vec<String> = Vec::new();
    let mut pos: usize = 0;
    assert(views(out@) + entries(lines_from(text@, 0)) =~= entries(lines_from(text@, 0)));
    while pos < n
        invariant
            pos <= n == cs@.len(),
            cs@ == text@,
            views(out@) + entries(lines_from(text@, pos as int)) == entries(lines_from(text@, 0)),
        decreases n - pos,
    {
        let mut end: usize = pos;
        while end < n && cs[end] != '\n'
            invariant
                pos <= end <= n == cs@.len(),
                cs@ == text@,
                next_line_feed(text@, pos as int) == next_line_feed(text@, end as int),
            decreases n - end,
        {
            end = end + 1;
        }
        let stop: usize = if end < n && end > pos && cs[end - 1] == '\r' {
            end - 1
        } else {
            end
        };
        let next: usize = if end < n {
            end + 1
        } else {
            n
        };
        let (a, b) = trim_range(&cs, pos, stop);
        let ghost line = text@.subrange(pos as int, stop as int);
        let ghost rest = lines_from(text@, next as int);
        let ghost before = views(out@);
        assert(lines_from(text@, pos as int) =~= seq![line] + rest);
        assert((seq![line] + rest).skip(1) =~= rest);
        if a < b {
            let s: String = text_of(&cs, a, b);
            out.push(s);
            assert(views(out@) =~= before.push(trimmed(line)));
            assert(before + (seq![trimmed(line)] + entries(rest)) =~= views(out@) + entries(rest));
        }
        pos = next;
    }
    assert(views(out@) + Seq::<Seq<char>>::empty() =~= views(out@));
    out
}

/// A list with the same strings.
pub fn copy_list(list: &Vec<String>) -> (r: Vec<String>)
    ensures
        views(r@) == views(list@),
{
    let mut out: Vec<String> = Vec::new();
    let mut i: usize = 0;
    assert(views(out@) =~= views(list@).take(0));
    while i < list.len()
        invariant
            i <= list@.len(),
            views(out@) == views(list@).take(i as int),
        decreases list@.len() - i,
    {
        let ghost before = views(out@);
        out.push(list[i].clone());
        assert(views(out@) =~= before.push(list@[i as int]@));
        assert(views(list@).take(i + 1) =~= views(list@).take(i as int).push(list@[i as int]@));
        i = i + 1;
    }
    assert(views(list@).take(list@.len() as int) =~= views(list@));
    out
}

/// Two texts, one behind the other.
pub fn join2(a: &str, b: &str) -> (r: String)
    ensures
        r@ == a@ + b@,
{
    let mut s: String = a.to_owned();
    s.append(b);
    s
}

/// Three texts, one behind the other.
pub fn join3(a: &str, b: &str, c: &str) -> (r: String)
    ensures
        r@ == a@ + b@ + c@,
{
    let mut s: String = a.to_owned();
    s.append(b);
    s.append(c);
    s
}

/// Some texts with a separator between them.
pub open spec fn joined(list: Seq<Seq<char>>, sep: Seq<char>) -> Seq<char>
    decreases list.len(),
{
    if list.len() == 0 {
        Seq::empty()
    } else if list.len() == 1 {
        list[0]
    } else {
        joined(list.drop_last(), sep) + sep + list.last()
    }
}

/// Joins a list of strings, with a separator between them.
pub fn join_list(list: &Vec<String>, sep: &str) -> (r: String)
    ensures
        r@ == joined(views(list@), sep@),
{
    let mut out: String = String::new();
    let mut i: usize = 0;
    assert(views(list@).take(0) =~= Seq::empty());
    while i < list.len()
        invariant
            i <= list@.len(),
            out@ == joined(views(list@).take(i as int), sep@),
        decreases list@.len() - i,
    {
        let ghost all = views(list@);
        assert(all.take(i + 1).drop_last() =~= all.take(i as int));
        assert(all.take(i + 1).last() == list@[i as int]@);
        if i > 0 {
            out.append(sep);
        }
        out.append(list[i].as_str());
        if i == 0 {
            assert(out@ =~= list@[0]@);
        }
        i = i + 1;
    }
    assert(views(list@).take(list@.len() as int) =~= views(list@));
    out
}

/// Whether `needle` stands in `t` at position `i`.
pub open spec fn stands_at(t: Seq<char>, needle: Seq<char>, i: int) -> bool {
    0 <= i && i + needle.len() <= t.len() && t.subrange(i, i + needle.len()) == needle
}

/// Whether `needle` stands anywhere in `t`.
pub open spec fn stands_in(t: Seq<char>, needle: Seq<char>) -> bool {
    exists|i: int| stands_at(t, needle, i)
}

/// Whether a text holds another.
pub fn contains_text(t: &str, needle: &str) -> (r: bool)
    ensures
        r == stands_in(t@, needle@),
{
    let a: Vec<char> = chars_of(t);
    let b: Vec<char> = chars_of(needle);
    if b.len() > a.len() {
        assert(forall|i: int| !stands_at(t@, needle@, i));
        return false;
    }
    let n: usize = a.len();
    let last: usize = n - b.len();
    let mut i: usize = 0;
    loop
        invariant
            a@ == t@,
            b@ == needle@,
            n == a@.len(),
            last == n - b@.len(),
            i <= last,
            forall|k: int| 0 <= k < i ==> !stands_at(t@, needle@, k),
        decreases last - i,
    {
        let mut j: usize = 0;
        while j < b.len() && a[i + j] == b[j]
            invariant
                a@ == t@,
                b@ == needle@,
                n == a@.len(),
                i + b@.len() <= n,
                j <= b@.len(),
                forall|k: int| 0 <= k < j ==> a@[i + k] == b@[k],
            decreases b@.len() - j,
        {
            j = j + 1;
        }
        if j == b.len() {
            assert(t@.subrange(i as int, i + needle@.len()) =~= needle@);
            assert(stands_at(t@, needle@, i as int));
            return true;
        }
        assert(!stands_at(t@, needle@, i as int)) by {
            assert(t@.subrange(i as int, i + needle@.len())[j as int] == a@[i + j]);
        }
        if i == last {
            assert forall|k: int| !stands_at(t@, needle@, k) by {
                if 0 <= k && k + needle@.len() <= t@.len() {
                    assert(k <= last);
                }
            }
            return false;
        }
        i = i + 1;
    }
}

/// The units of a character in UTF-16: one, or a pair of surrogates for a character beyond the
/// first plane.
pub open spec fn utf16_units(c: char) -> Seq<u16> {
    let n = c as u32;
    if n < 0x1_0000 {
        seq![n as u16]
    } else {
        seq![
            (0xD800 + (n - 0x1_0000) / 0x400) as u16,
            (0xDC00 + (n - 0x1_0000) % 0x400) as u16,
        ]
    }
}

/// A text in UTF-16.
pub open spec fn utf16(t: Seq<char>) -> Seq<u16>
    decreases t.len(),
{
    if t.len() == 0 {
        Seq::empty()
    } else {
        utf16(t.drop_last()) + utf16_units(t.last())
    }
}

/// A text in UTF-16 with a 0 behind it, as the system takes it.
pub fn nul_ended(t: &str) -> (r: Vec<u16>)
    ensures
        r@ == utf16(t@).push(0),
{
    let cs: Vec<char> = chars_of(t);
    let mut out: Vec<u16> = Vec::new();
    let mut i: usize = 0;
    assert(cs@.take(0) =~= Seq::empty());
    while i < cs.len()
        invariant
            i <= cs@.len(),
            out@ == utf16(cs@.take(i as int)),
        decreases cs@.len() - i,
    {
        let ghost before = out@;
        let ghost next = cs@.take(i + 1);
        assert(next.drop_last() =~= cs@.take(i as int));
        assert(next.last() == cs@[i as int]);
        let n: u32 = cs[i] as u32;
        if n < 0x1_0000 {
            out.push(n as u16);
        } else {
            let rest: u32 = n - 0x1_0000;
            out.push((0xD800 + rest / 0x400) as u16);
            out.push((0xDC00 + rest % 0x400) as u16);
        }
        assert(out@ =~= before + utf16_units(cs@[i as int]));
        i = i + 1;
    }
    assert(cs@.take(cs@.len() as int) =~= t@);
    out.push(0);
    out
}

/// Large and small letters count as the same, and nothing else does.
pub proof fn law_case_is_ignored(a: Seq<char>, b: Seq<char>, c: Seq<char>, d: int, e: char)
    ensures
        0 <= d < 26 ==> ascii_lower((0x41 + d) as char) == (0x61 + d) as char,
        !('A' <= e && e <= 'Z') ==> ascii_lower(e) == e,
        same_ignoring_case(a, a),
        same_ignoring_case(a, b) ==> same_ignoring_case(b, a),
        same_ignoring_case(a, b) && same_ignoring_case(b, c) ==> same_ignoring_case(a, c),
        same_ignoring_case(a, b) ==> a.len() == b.len(),
        same_ignoring_case(a.push('q'), b.push('Q')) == same_ignoring_case(a, b),
{
    if same_ignoring_case(a, b) {
        assert forall|i: int| 0 <= i < b.len() implies ascii_lower(#[trigger] b[i]) == ascii_lower(
            a[i],
        ) by {
            assert(ascii_lower(a[i]) == ascii_lower(b[i]));
        }
        if same_ignoring_case(b, c) {
            assert forall|i: int| 0 <= i < a.len() implies ascii_lower(#[trigger] a[i])
                == ascii_lower(c[i]) by {
                assert(ascii_lower(b[i]) == ascii_lower(c[i]));
            }
        }
    }
    let p = a.push('q');
    let q = b.push('Q');
    if same_ignoring_case(p, q) {
        assert forall|i: int| 0 <= i < a.len() implies ascii_lower(#[trigger] a[i]) == ascii_lower(
            b[i],
        ) by {
            assert(p[i] == a[i] && q[i] == b[i]);
        }
    }
}

/// The number that digits stand for.
pub open spec fn number_in(t: Seq<char>) -> nat
    decreases t.len(),
{
    if t.len() == 0 {
        0
    } else {
        (10 * number_in(t.drop_last()) + (t.last() as u32 - 0x30)) as nat
    }
}

/// A number is written in the ten digits, without a zero in front, and reads back as itself.
pub proof fn law_decimal_reads_back(n: nat)
    ensures
        number_in(decimal(n)) == n,
        decimal(n).len() > 0,
        forall|i: int| 0 <= i < decimal(n).len() ==> '0' <= #[trigger] decimal(n)[i] <= '9',
        decimal(n)[0] == '0' ==> n == 0 && decimal(n).len() == 1,
    decreases n,
{
    if n < 10 {
        assert(decimal(n).drop_last() =~= Seq::<char>::empty());
        assert(number_in(Seq::<char>::empty()) == 0);
        assert(decimal(n).last() as u32 == 0x30 + n);
    } else {
        law_decimal_reads_back(n / 10);
        assert(decimal(n).drop_last() =~= decimal(n / 10));
        assert(decimal(n)[0] == decimal(n / 10)[0]);
        assert(decimal(n).last() as u32 == 0x30 + n % 10);
    }
}

/// Of the signs below the letters, the space and what moves to another column or line is space;
/// no letter, digit or mark is.
pub proof fn law_plain_space(c: char)
    requires
        (c as u32) < 0x80,
    ensures
        is_space(c) <==> c == ' ' || c == '\t' || c == '\n' || c == '\r' || c == '\u{B}' || c
            == '\u{C}',
{
}

proof fn trim_start_under(t: Seq<char>, c: char)
    requires
        is_space(c),
    ensures
        trim_start(t).len() > 0 ==> trim_start(t.push(c)) == trim_start(t).push(c),
        trim_start(t).len() == 0 ==> trim_start(t.push(c)).len() == 0,
    decreases t.len(),
{
    if t.len() == 0 {
        assert(t.push(c).skip(1) =~= Seq::<char>::empty());
        assert(trim_start(Seq::<char>::empty()).len() == 0);
    } else if is_space(t[0]) {
        trim_start_under(t.skip(1), c);
        assert(t.push(c).skip(1) =~= t.skip(1).push(c));
    }
}

/// Space before or behind a text does not count; one that begins and ends with something else
/// stays whole.
pub proof fn law_space_around_goes(t: Seq<char>, c: char)
    ensures
        trimmed(Seq::empty()) == Seq::<char>::empty(),
        is_space(c) ==> trimmed(seq![c] + t) == trimmed(t),
        is_space(c) ==> trimmed(t.push(c)) == trimmed(t),
        t.len() > 0 && !is_space(t[0]) && !is_space(t.last()) ==> trimmed(t) == t,
{
    if is_space(c) {
        assert((seq![c] + t).skip(1) =~= t);
        trim_start_under(t, c);
        let s = trim_start(t);
        if s.len() > 0 {
            assert(s.push(c).drop_last() =~= s);
        }
    }
}

proof fn trims_end(t: Seq<char>)
    ensures
        trim_end(t).len() > 0 ==> !is_space(trim_end(t).last()),
        trim_end(t).len() > 0 ==> trim_end(t)[0] == t[0] && t.len() > 0,
    decreases t.len(),
{
    if t.len() > 0 && is_space(t.last()) {
        trims_end(t.drop_last());
    }
}

proof fn trims_start(t: Seq<char>)
    ensures
        trim_start(t).len() > 0 ==> !is_space(trim_start(t)[0]),
    decreases t.len(),
{
    if t.len() > 0 && is_space(t[0]) {
        trims_start(t.skip(1));
    }
}

/// Of lines, those are entries that hold something, each without the space around it; a line of
/// space alone counts for nothing.
pub proof fn law_entries(lines: Seq<Seq<char>>, line: Seq<char>)
    ensures
        entries(Seq::empty()) == Seq::<Seq<char>>::empty(),
        trimmed(line).len() == 0 ==> entries(seq![line] + lines) == entries(lines),
        trimmed(line).len() > 0 ==> entries(seq![line] + lines) == seq![trimmed(line)] + entries(
            lines,
        ),
        trimmed(line).len() > 0 ==> !is_space(trimmed(line)[0]) && !is_space(trimmed(line).last()),
{
    assert((seq![line] + lines).skip(1) =~= lines);
    trims_end(trim_start(line));
    trims_start(line);
}

/// A needle stands in every text that was put together around it.
pub proof fn law_needle_found(a: Seq<char>, needle: Seq<char>, b: Seq<char>)
    ensures
        stands_in(a + needle + b, needle),
        stands_in(a, needle) ==> needle.len() <= a.len(),
{
    let t = a + needle + b;
    assert(t.subrange(a.len() as int, a.len() as int + needle.len()) =~= needle);
    assert(stands_at(t, needle, a.len() as int));
}

/// A sign takes one unit, or a pair of surrogates from which it comes back; a text takes those of
/// its signs in order.
pub proof fn law_units_of_signs(t: Seq<char>, c: char)
    ensures
        utf16(Seq::empty()) == Seq::<u16>::empty(),
        utf16(t.push(c)) == utf16(t) + utf16_units(c),
        (c as u32) < 0x1_0000 ==> utf16_units(c).len() == 1 && utf16_units(c)[0] == c as u32,
        (c as u32) >= 0x1_0000 ==> {
            let u = utf16_units(c);
            &&& u.len() == 2
            &&& 0xD800 <= u[0] < 0xDC00
            &&& 0xDC00 <= u[1] < 0xE000
            &&& 0x1_0000 + (u[0] - 0xD800) * 0x400 + (u[1] - 0xDC00) == c as u32
        },
{
    assert(t.push(c).drop_last() =~= t);
}

/// A list is put together with the separator between every two of its texts, and only there.
pub proof fn law_joined(list: Seq<Seq<char>>, sep: Seq<char>, t: Seq<char>)
    ensures
        joined(Seq::empty(), sep) == Seq::<char>::empty(),
        joined(seq![t], sep) == t,
        list.len() > 0 ==> joined(list.push(t), sep) == joined(list, sep) + sep + t,
{
    assert(list.push(t).drop_last() =~= list);
}

/// Nothing has no lines, and a text without a line feed is one.
pub proof fn law_single_line(t: Seq<char>)
    requires
        forall|i: int| 0 <= i < t.len() ==> #[trigger] t[i] != '\n',
    ensures
        t.len() == 0 ==> lines_from(t, 0) == Seq::<Seq<char>>::empty(),
        t.len() > 0 ==> lines_from(t, 0) == seq![t],
{
    no_line_feed(t, 0);
    assert(t.subrange(0, t.len() as int) =~= t);
}

proof fn no_line_feed(t: Seq<char>, from: int)
    requires
        0 <= from <= t.len(),
        forall|i: int| 0 <= i < t.len() ==> #[trigger] t[i] != '\n',
    ensures
        next_line_feed(t, from) == t.len(),
    decreases t.len() - from,
{
    if from < t.len() {
        no_line_feed(t, from + 1);
    }
}

} // verus!
