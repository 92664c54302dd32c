//! JSON with `//` line comments: removing the comments and a byte order mark.

use vstd::prelude::*;

use crate::text::{chars_of, text_of};

verus! {

/// Where the string literal that is open at `i` ends: the position after its closing quote, or
/// the end of the text. A backslash takes the character behind it with it.
pub open spec fn string_end(t: Seq<char>, i: int) -> int
    decreases t.len() + 1 - i,
{
    if i >= t.len() {
        t.len() as int
    } else if t[i] == '"' {
        i + 1
    } else if t[i] == '\\' {
        string_end(t, i + 2)
    } else {
        string_end(t, i + 1)
    }
}

/// Where the line of position `i` ends: at its line feed, or at the end of the text.
pub open spec fn line_end(t: Seq<char>, i: int) -> int
    decreases t.len() - i,
{
    if i >= t.len() || t[i] == '\n' {
        i
    } else {
        line_end(t, i + 1)
    }
}

/// Where the comment that begins at `i` ends: at the end of its line, except that a carriage
/// return that closes the line is no part of the comment.
pub open spec fn comment_end(t: Seq<char>, i: int) -> int {
    let end = line_end(t, i);
    if end > i && t[end - 1] == '\r' {
        end - 1
    } else {
        end
    }
}

/// Whether a comment begins at `i`.
pub open spec fn comment_at(t: Seq<char>, i: int) -> bool {
    0 <= i && i + 1 < t.len() && t[i] == '/' && t[i + 1] == '/'
}

/// A string literal ends inside the text, behind the place where it is open.
pub proof fn lemma_string_end(t: Seq<char>, i: int)
    ensures
        i <= t.len() ==> i <= string_end(t, i) <= t.len(),
        i < t.len() ==> i < string_end(t, i),
    decreases t.len() + 1 - i,
{
    if i < t.len() && t[i] != '"' {
        lemma_string_end(t, i + 1);
        lemma_string_end(t, i + 2);
        if i + 2 > t.len() {
            assert(string_end(t, i + 2) == t.len());
        }
    }
}

proof fn lemma_line_end(t: Seq<char>, i: int)
    requires
        0 <= i <= t.len(),
    ensures
        i <= line_end(t, i) <= t.len(),
        line_end(t, i) < t.len() ==> t[line_end(t, i)] == '\n',
        forall|k: int| i <= k < line_end(t, i) ==> t[k] != '\n',
    decreases t.len() - i,
{
    if i < t.len() && t[i] != '\n' {
        lemma_line_end(t, i + 1);
    }
}

/// A comment takes at least its two slashes, and no line feed.
pub proof fn lemma_comment_end(t: Seq<char>, i: int)
    requires
        comment_at(t, i),
    ensures
        i + 2 <= comment_end(t, i) <= t.len(),
        forall|k: int| i <= k < comment_end(t, i) ==> t[k] != '\n',
{
    lemma_line_end(t, i);
    assert(line_end(t, i) == line_end(t, i + 1));
    assert(line_end(t, i + 1) == line_end(t, i + 2));
    lemma_line_end(t, i + 2);
}

/// The text from position `i` on without its comments. A string literal is kept whole,
/// whatever it holds.
pub open spec fn stripped_from(t: Seq<char>, i: int) -> Seq<char>
    decreases t.len() - i,
{
    if i < 0 || i >= t.len() {
        Seq::empty()
    } else if t[i] == '"' {
        let end = string_end(t, i + 1);
        proof {
            lemma_string_end(t, i + 1);
        }
        t.subrange(i, end) + stripped_from(t, end)
    } else if comment_at(t, i) {
        proof {
            lemma_comment_end(t, i);
        }
        stripped_from(t, comment_end(t, i))
    } else {
        seq![t[i]] + stripped_from(t, i + 1)
    }
}

/// A text without its `//` comments.
pub open spec fn stripped(t: Seq<char>) -> Seq<char> {
    stripped_from(t, 0)
}

/// Removes the `//` comments of a text. What stands in a string literal is no comment; the
/// end of a line, a carriage return included, is kept.
pub fn strip_jsonc_comments(text: &str) -> (r: String)
    ensures
        r@ == stripped(text@),
{
    let cs: Vec<char> = chars_of(text);
    let n: usize = cs.len();
    let mut out: String = String::new();
    let mut i: usize = 0;
    assert(out@ + stripped_from(text@, 0) =~= stripped(text@));
    while i < n
        invariant
            i <= n == cs@.len(),
            cs@ == text@,
            out@ + stripped_from(text@, i as int) == stripped(text@),
        decreases n - i,
    {
        let ghost before = out@;
        if cs[i] == '"' {
            let end: usize = close_of(&cs, i + 1);
            let ghost rest = stripped_from(text@, end as int);
            let mut k: usize = i;
            while k < end
                invariant
                    i <= k <= end <= n == cs@.len(),
                    out@ == before + cs@.subrange(i as int, k as int),
                decreases end - k,
            {
                out.push(cs[k]);
                assert(before + cs@.subrange(i as int, k + 1) =~= (before + cs@.subrange(
                    i as int,
                    k as int,
                )).push(cs@[k as int]));
                k = k + 1;
            }
            assert(out@ + rest =~= before + (cs@.subrange(i as int, end as int) + rest));
            i = end;
        } else if cs[i] == '/' && i + 1 < n && cs[i + 1] == '/' {
            let mut end: usize = i;
            while end < n && cs[end] != '\n'
                invariant
                    i <= end <= n == cs@.len(),
                    cs@ == text@,
                    line_end(text@, i as int) == line_end(text@, end as int),
                decreases n - end,
            {
                end = end + 1;
            }
            proof {
                lemma_comment_end(text@, i as int);
            }
            if cs[end - 1] == '\r' {
                end = end - 1;
            }
            i = end;
        } else {
            out.push(cs[i]);
            let ghost rest = stripped_from(text@, i + 1);
            assert(out@ + rest =~= before + (seq![cs@[i as int]] + rest));
            i = i + 1;
        }
    }
    assert(out@ + Seq::<char>::empty() =~= out@);
    out
}

/// Finds the end of the string literal that is open at `from`.
fn close_of(cs: &Vec<char>, from: usize) -> (r: usize)
    requires
        from <= cs@.len(),
    ensures
        r == string_end(cs@, from as int),
        from <= r <= cs@.len(),
{
    let n: usize = cs.len();
    let mut i: usize = from;
    while i < n
        invariant
            from <= i <= n == cs@.len(),
            string_end(cs@, from as int) == string_end(cs@, i as int),
        decreases n - i,
    {
        if cs[i] == '"' {
            return i + 1;
        }
        if cs[i] == '\\' && i + 1 < n {
            i = i + 2;
        } else {
            if i + 1 == n {
                assert(string_end(cs@, i + 2) == string_end(cs@, i + 1));
            }
            i = i + 1;
        }
    }
    n
}

/// A text without the byte order marks it starts with.
pub open spec fn without_bom(t: Seq<char>) -> Seq<char>
    decreases t.len(),
{
    if t.len() > 0 && t[0] == '\u{FEFF}' {
        without_bom(t.skip(1))
    } else {
        t
    }
}

/// Removes the byte order marks at the start of a text.
pub fn strip_bom(text: &str) -> (r: String)
    ensures
        r@ == without_bom(text@),
{
    let cs: Vec<char> = chars_of(text);
    let n: usize = cs.len();
    let mut i: usize = 0;
    assert(text@.skip(0) =~= text@);
    while i < n && cs[i] == '\u{FEFF}'
        invariant
            i <= n == cs@.len(),
            cs@ == text@,
            without_bom(text@.skip(i as int)) == without_bom(text@),
        decreases n - i,
    {
        assert(text@.skip(i as int).skip(1) =~= text@.skip(i + 1));
        i = i + 1;
    }
    assert(cs@.subrange(i as int, n as int) =~= text@.skip(i as int));
    text_of(&cs, i, n)
}

/// A string literal that stands in another text too ends there alike.
proof fn lemma_same_string(t: Seq<char>, a: int, u: Seq<char>, b: int)
    requires
        0 <= a <= t.len(),
        0 <= b,
        b + (string_end(t, a) - a) <= u.len(),
        forall|j: int| 0 <= j < string_end(t, a) - a ==> #[trigger] u[b + j] == t[a + j],
        string_end(t, a) == t.len() ==> u.len() == b + (string_end(t, a) - a),
    ensures
        string_end(u, b) == b + (string_end(t, a) - a),
    decreases t.len() - a,
{
    lemma_string_end(t, a);
    if a < t.len() {
        assert(u[b + 0] == t[a + 0]);
        if t[a] != '"' {
            let step: int = if t[a] == '\\' {
                2
            } else {
                1
            };
            if a + step <= t.len() {
                lemma_string_end(t, a + step);
                assert forall|j: int| 0 <= j < string_end(t, a + step) - (a + step) implies
                    #[trigger] u[b + step + j] == t[a + step + j] by {
                    assert(u[b + (step + j)] == t[a + (step + j)]);
                }
                lemma_same_string(t, a + step, u, b + step);
            }
        }
    }
}

proof fn lemma_stripped_again(t: Seq<char>, i: int, u: Seq<char>, k: int)
    requires
        0 <= i <= t.len(),
        0 <= k <= u.len(),
        u.skip(k) == stripped_from(t, i),
    ensures
        stripped_from(u, k) == u.skip(k),
    decreases t.len() - i,
{
    let s = stripped_from(t, i);
    if i == t.len() {
        assert(u.skip(k).len() == 0);
    } else if t[i] == '"' {
        lemma_string_end(t, i + 1);
        let end = string_end(t, i + 1);
        let rest = stripped_from(t, end);
        let over = k + (end - i);
        assert(s =~= t.subrange(i, end) + rest);
        assert forall|j: int| 0 <= j < end - i implies #[trigger] u[k + j] == t[i + j] by {
            assert(u.skip(k)[j] == t.subrange(i, end)[j]);
        }
        assert(u[k + 0] == t[i + 0]);
        assert(u.len() == over + rest.len());
        assert forall|j: int| 0 <= j < end - (i + 1) implies #[trigger] u[k + 1 + j] == t[i + 1
            + j] by {
            assert(u[k + (1 + j)] == t[i + (1 + j)]);
        }
        lemma_same_string(t, i + 1, u, k + 1);
        assert(string_end(u, k + 1) == over);
        assert(u.skip(over) =~= rest) by {
            assert forall|j: int| 0 <= j < rest.len() implies u.skip(over)[j] == rest[j] by {
                assert(u.skip(k)[end - i + j] == rest[j]);
            }
        }
        lemma_stripped_again(t, end, u, over);
        assert(u.subrange(k, over) + u.skip(over) =~= u.skip(k));
    } else if comment_at(t, i) {
        lemma_comment_end(t, i);
        lemma_stripped_again(t, comment_end(t, i), u, k);
    } else {
        let rest = stripped_from(t, i + 1);
        assert(s == seq![t[i]] + rest);
        assert(u.skip(k)[0] == t[i]);
        assert(u.skip(k + 1) =~= rest) by {
            assert forall|j: int| 0 <= j < rest.len() implies u.skip(k + 1)[j] == rest[j] by {
                assert(u.skip(k)[1 + j] == rest[j]);
            }
        }
        assert(!comment_at(u, k)) by {
            if t[i] == '/' && i + 1 < t.len() {
                lemma_string_end(t, i + 2);
                assert(rest[0] == t[i + 1]);
                assert(u.skip(k + 1)[0] == u[k + 1]);
            }
        }
        lemma_stripped_again(t, i + 1, u, k + 1);
        assert(seq![u[k]] + u.skip(k + 1) =~= u.skip(k));
    }
}

/// A text without comments stays as it is: removing them twice does no more than once.
pub proof fn law_comments_removed_once(t: Seq<char>)
    ensures
        stripped(stripped(t)) == stripped(t),
{
    let u = stripped(t);
    assert(u.skip(0) =~= u);
    lemma_stripped_again(t, 0, u, 0);
}

/// How many line feeds stand in a text.
pub open spec fn line_feeds(t: Seq<char>) -> nat
    decreases t.len(),
{
    if t.len() == 0 {
        0
    } else {
        line_feeds(t.drop_last()) + if t.last() == '\n' {
            1nat
        } else {
            0nat
        }
    }
}

proof fn lemma_line_feeds_add(a: Seq<char>, b: Seq<char>)
    ensures
        line_feeds(a + b) == line_feeds(a) + line_feeds(b),
    decreases b.len(),
{
    if b.len() == 0 {
        assert(a + b =~= a);
    } else {
        assert((a + b).drop_last() =~= a + b.drop_last());
        lemma_line_feeds_add(a, b.drop_last());
    }
}

proof fn lemma_no_line_feeds(a: Seq<char>)
    requires
        forall|k: int| 0 <= k < a.len() ==> a[k] != '\n',
    ensures
        line_feeds(a) == 0,
    decreases a.len(),
{
    if a.len() > 0 {
        lemma_no_line_feeds(a.drop_last());
    }
}

proof fn lemma_lines_kept_from(t: Seq<char>, i: int)
    requires
        0 <= i <= t.len(),
    ensures
        line_feeds(stripped_from(t, i)) == line_feeds(t.skip(i)),
    decreases t.len() - i,
{
    if i == t.len() {
        assert(t.skip(i) =~= Seq::<char>::empty());
    } else if t[i] == '"' {
        lemma_string_end(t, i + 1);
        let end = string_end(t, i + 1);
        lemma_lines_kept_from(t, end);
        lemma_line_feeds_add(t.subrange(i, end), stripped_from(t, end));
        lemma_line_feeds_add(t.subrange(i, end), t.skip(end));
        assert(t.skip(i) =~= t.subrange(i, end) + t.skip(end));
    } else if comment_at(t, i) {
        lemma_comment_end(t, i);
        let end = comment_end(t, i);
        lemma_lines_kept_from(t, end);
        lemma_no_line_feeds(t.subrange(i, end));
        lemma_line_feeds_add(t.subrange(i, end), t.skip(end));
        assert(t.skip(i) =~= t.subrange(i, end) + t.skip(end));
    } else {
        lemma_lines_kept_from(t, i + 1);
        lemma_line_feeds_add(seq![t[i]], stripped_from(t, i + 1));
        lemma_line_feeds_add(seq![t[i]], t.skip(i + 1));
        assert(t.skip(i) =~= seq![t[i]] + t.skip(i + 1));
    }
}

/// Removing comments keeps every line feed, so line numbers stay the same.
pub proof fn law_comments_keep_line_numbers(t: Seq<char>)
    ensures
        line_feeds(stripped(t)) == line_feeds(t),
{
    lemma_lines_kept_from(t, 0);
    assert(t.skip(0) =~= t);
}

proof fn lemma_no_comment_from(t: Seq<char>, i: int)
    requires
        0 <= i <= t.len(),
        forall|k: int| !#[trigger] comment_at(t, k),
    ensures
        stripped_from(t, i) == t.skip(i),
    decreases t.len() - i,
{
    if i == t.len() {
        assert(t.skip(i) =~= Seq::<char>::empty());
    } else if t[i] == '"' {
        lemma_string_end(t, i + 1);
        let end = string_end(t, i + 1);
        lemma_no_comment_from(t, end);
        assert(t.skip(i) =~= t.subrange(i, end) + t.skip(end));
    } else {
        assert(!comment_at(t, i));
        lemma_no_comment_from(t, i + 1);
        assert(t.skip(i) =~= seq![t[i]] + t.skip(i + 1));
    }
}

/// A text in which no two slashes stand side by side is left as it is.
pub proof fn law_no_comment_no_change(t: Seq<char>)
    requires
        forall|k: int| !#[trigger] comment_at(t, k),
    ensures
        stripped(t) == t,
{
    lemma_no_comment_from(t, 0);
    assert(t.skip(0) =~= t);
}

proof fn lemma_string_end_shift(t: Seq<char>, k: int, i: int)
    requires
        0 <= k <= t.len(),
        0 <= i,
    ensures
        string_end(t.skip(k), i) + k == string_end(t, i + k),
    decreases t.len() + 1 - i,
{
    if i < t.len() - k {
        lemma_string_end_shift(t, k, i + 1);
        lemma_string_end_shift(t, k, i + 2);
    }
}

proof fn lemma_line_end_shift(t: Seq<char>, k: int, i: int)
    requires
        0 <= k <= t.len(),
        0 <= i <= t.len() - k,
    ensures
        line_end(t.skip(k), i) + k == line_end(t, i + k),
    decreases t.len() - i,
{
    if i < t.len() - k {
        lemma_line_end_shift(t, k, i + 1);
    }
}

proof fn lemma_stripped_shift(t: Seq<char>, k: int, i: int)
    requires
        0 <= k <= t.len(),
        0 <= i <= t.len() - k,
    ensures
        stripped_from(t.skip(k), i) == stripped_from(t, i + k),
    decreases t.len() - i,
{
    let u = t.skip(k);
    if i < u.len() {
        if u[i] == '"' {
            lemma_string_end(u, i + 1);
            lemma_string_end_shift(t, k, i + 1);
            let end = string_end(u, i + 1);
            lemma_stripped_shift(t, k, end);
            assert(u.subrange(i, end) =~= t.subrange(i + k, end + k));
        } else if comment_at(u, i) {
            lemma_comment_end(u, i);
            lemma_line_end(u, i);
            lemma_line_end_shift(t, k, i);
            lemma_stripped_shift(t, k, comment_end(u, i));
        } else {
            lemma_stripped_shift(t, k, i + 1);
        }
    }
}

/// A string literal is kept whole, slashes and all, and what follows it is treated as a text
/// of its own.
pub proof fn law_strings_kept(t: Seq<char>)
    requires
        t.len() > 0,
        t[0] == '"',
    ensures
        stripped(t) == t.take(string_end(t, 1)) + stripped(t.skip(string_end(t, 1))),
{
    lemma_string_end(t, 1);
    let end = string_end(t, 1);
    lemma_stripped_shift(t, end, 0);
    assert(t.subrange(0, end) =~= t.take(end));
}

proof fn line_of(t: Seq<char>, i: int, end: int)
    requires
        0 <= i <= end <= t.len(),
        end < t.len() ==> t[end] == '\n',
        forall|k: int| i <= k < end ==> #[trigger] t[k] != '\n',
    ensures
        line_end(t, i) == end,
    decreases end - i,
{
    if i < end {
        line_of(t, i + 1, end);
    }
}

/// Two slashes outside a string take away the rest of their line, but not its end: what follows is
/// read as if they had not been there.
pub proof fn law_comment_goes(rest_of_line: Seq<char>, after: Seq<char>)
    requires
        forall|k: int| 0 <= k < rest_of_line.len() ==> #[trigger] rest_of_line[k] != '\n',
        rest_of_line.len() > 0 ==> rest_of_line.last() != '\r',
    ensures
        stripped(seq!['/', '/'] + rest_of_line) == Seq::<char>::empty(),
        stripped(seq!['/', '/'] + rest_of_line + seq!['\n'] + after) == seq!['\n'] + stripped(after),
{
    let a = seq!['/', '/'] + rest_of_line;
    assert forall|k: int| 0 <= k < a.len() implies #[trigger] a[k] != '\n' by {
        if k >= 2 {
            assert(a[k] == rest_of_line[k - 2]);
        }
    }
    assert(a[0] == '/' && a[1] == '/');
    line_of(a, 0, a.len() as int);
    assert(a[a.len() - 1] != '\r') by {
        if rest_of_line.len() > 0 {
            assert(a[a.len() - 1] == rest_of_line.last());
        }
    }
    assert(comment_at(a, 0));
    assert(stripped_from(a, 0) == stripped_from(a, a.len() as int));
    assert(stripped_from(a, a.len() as int) =~= Seq::<char>::empty());
    let t = a + seq!['\n'] + after;
    let n = a.len() as int;
    assert forall|k: int| 0 <= k < n implies #[trigger] t[k] != '\n' by {
        assert(t[k] == a[k]);
    }
    assert(t[n] == '\n');
    assert(t[n - 1] == a[n - 1]);
    assert(t[0] == '/' && t[1] == '/');
    line_of(t, 0, n);
    assert(comment_at(t, 0));
    assert(comment_end(t, 0) == n);
    assert(stripped_from(t, 0) == stripped_from(t, n));
    assert(t.skip(n + 1) =~= after);
    lemma_stripped_shift(t, n + 1, 0);
    assert(stripped_from(t, n) == seq![t[n]] + stripped_from(t, n + 1));
}

/// Outside strings and comments a sign is kept.
pub proof fn law_signs_kept(c: char, after: Seq<char>)
    requires
        c != '"',
        c != '/' || after.len() == 0 || after[0] != '/',
    ensures
        stripped(seq![c] + after) == seq![c] + stripped(after),
{
    let t = seq![c] + after;
    assert(t.skip(1) =~= after);
    lemma_stripped_shift(t, 1, 0);
    assert(t[0] == c);
    if after.len() > 0 {
        assert(t[1] == after[0]);
    }
}

/// A string ends behind the next quotation mark; one behind a backslash does not end it, nor does
/// what the backslash takes with it.
pub proof fn law_string_closes(t: Seq<char>, i: int)
    requires
        0 <= i < t.len(),
    ensures
        t[i] == '"' ==> string_end(t, i) == i + 1,
        t[i] != '"' && t[i] != '\\' ==> string_end(t, i) == string_end(t, i + 1),
        t[i] == '\\' ==> string_end(t, i) == string_end(t, i + 2),
        string_end(t, t.len() as int) == t.len(),
{
}

/// Marks of the byte order in front are dropped, and nothing else is.
pub proof fn law_byte_order_mark(t: Seq<char>)
    ensures
        without_bom(seq!['\u{FEFF}'] + t) == without_bom(t),
        t.len() == 0 || t[0] != '\u{FEFF}' ==> without_bom(t) == t,
{
    assert((seq!['\u{FEFF}'] + t).skip(1) =~= t);
}

} // verus!
