//! Where the files of the input method are.

use vstd::prelude::*;

use crate::ime;
use crate::text::{chars_of, join2, join3, text_of};

verus! {

/// The dictionary.
pub const DICT_FILENAME: &'static str = "iuv.imedic";

/// The dictionary of the user.
pub const USER_DICT_FILENAME: &'static str = "iuv.user.imedic";

/// The table from simplified to traditional characters.
pub const SCRIPT_FILENAME: &'static str = "iuv.opencc";

/// The settings.
pub const CONFIG_FILENAME: &'static str = "config.json";

/// What the toolbar remembers.
pub const TOOLBAR_FILENAME: &'static str = "toolbar.json";

/// Whether a directory is a bare drive, which stands for the current directory of that drive.
pub open spec fn is_drive(dir: Seq<char>) -> bool {
    dir.len() == 2 && ime::is_letter(dir[0]) && dir[1] == ':'
}

/// Where a name stands below a directory: a separator is put between them where there is none,
/// but not behind a bare drive.
pub open spec fn below(dir: Seq<char>, name: Seq<char>) -> Seq<char> {
    if dir.len() == 0 || dir.last() == '\\' || dir.last() == '/' || is_drive(dir) {
        dir + name
    } else {
        dir + "\\"@ + name
    }
}

/// Where a name stands below a directory.
pub fn path_below(dir: &str, name: &str) -> (r: String)
    ensures
        r@ == below(dir@, name@),
{
    let cs: Vec<char> = chars_of(dir);
    let drive: bool = cs.len() == 2 && (('a' <= cs[0] && cs[0] <= 'z') || ('A' <= cs[0] && cs[0]
        <= 'Z')) && cs[1] == ':';
    if cs.len() == 0 || cs[cs.len() - 1] == '\\' || cs[cs.len() - 1] == '/' || drive {
        join2(dir, name)
    } else {
        join3(dir, "\\", name)
    }
}

/// Whether a path is to be taken as it stands: a slash separates nothing in it then.
pub open spec fn is_verbatim(t: Seq<char>) -> bool {
    t.len() >= 4 && t[0] == '\\' && t[1] == '\\' && t[2] == '?' && t[3] == '\\'
}

/// Whether a character separates the parts of a path.
pub open spec fn separates(c: char, verbatim: bool) -> bool {
    c == '\\' || (c == '/' && !verbatim)
}

/// Where the part of a path that begins at `i` ends.
pub open spec fn part_end(t: Seq<char>, i: int, verbatim: bool) -> int
    decreases t.len() - i,
{
    if i < 0 || i >= t.len() || separates(t[i], verbatim) {
        i
    } else {
        part_end(t, i + 1, verbatim)
    }
}

/// Where the part behind the separator at `i` ends; `i` where there is none.
pub open spec fn next_part_end(t: Seq<char>, i: int, verbatim: bool) -> int {
    if i < t.len() && part_end(t, i + 1, verbatim) > i + 1 {
        part_end(t, i + 1, verbatim)
    } else {
        i
    }
}

/// Where the prefix of a path ends, which tells the drive, the server with what it shares, or
/// the device.
pub open spec fn prefix_end(t: Seq<char>) -> int {
    if is_verbatim(t) {
        if t.len() >= 8 && t.subrange(4, 8) == "UNC\\"@ {
            next_part_end(t, part_end(t, 8, true), true)
        } else {
            part_end(t, 4, true)
        }
    } else if t.len() >= 2 && separates(t[0], false) && separates(t[1], false) {
        if t.len() >= 4 && t[2] == '.' && separates(t[3], false) {
            part_end(t, 4, false)
        } else {
            let server = part_end(t, 2, false);
            let share = next_part_end(t, server, false);
            if server > 2 && share > server {
                share
            } else {
                0
            }
        }
    } else if t.len() >= 2 && ime::is_letter(t[0]) && t[1] == ':' {
        2
    } else {
        0
    }
}

/// Whether the parts of a path count from a root.
pub open spec fn is_rooted(t: Seq<char>) -> bool {
    prefix_end(t) < t.len() && separates(t[prefix_end(t)], is_verbatim(t))
}

/// Where the parts of a path begin, behind its prefix and root.
pub open spec fn parts_begin(t: Seq<char>) -> int {
    if is_rooted(t) {
        prefix_end(t) + 1
    } else {
        prefix_end(t)
    }
}

/// Whether what ends at `to` is a part that stands for the directory it is in. At the very
/// beginning of a path without a root such a part counts.
pub open spec fn idle_part(t: Seq<char>, to: int) -> bool {
    &&& !is_verbatim(t)
    &&& 0 < to <= t.len()
    &&& t[to - 1] == '.'
    &&& if to - 1 > parts_begin(t) {
        separates(t[to - 2], false)
    } else {
        is_rooted(t)
    }
}

/// Where the last part before `to` ends, without separators and idle parts behind it.
pub open spec fn last_part_end(t: Seq<char>, to: int) -> int
    decreases to,
{
    if to <= parts_begin(t) || to <= 0 || to > t.len() {
        to
    } else if separates(t[to - 1], is_verbatim(t)) || idle_part(t, to) {
        last_part_end(t, to - 1)
    } else {
        to
    }
}

/// Where the part that ends at `to` begins.
pub open spec fn part_begin(t: Seq<char>, to: int) -> int
    decreases to,
{
    if to <= parts_begin(t) || to <= 0 || to > t.len() || separates(t[to - 1], is_verbatim(t)) {
        to
    } else {
        part_begin(t, to - 1)
    }
}

/// The directory that a path is in: the path without its last part. A path that has none is in
/// no directory.
pub open spec fn directory(t: Seq<char>) -> Option<Seq<char>> {
    let end = last_part_end(t, t.len() as int);
    if end <= parts_begin(t) {
        None
    } else {
        Some(t.take(last_part_end(t, part_begin(t, end))))
    }
}

fn find_part_end(cs: &Vec<char>, from: usize, verbatim: bool) -> (r: usize)
    requires
        from <= cs@.len(),
    ensures
        r == part_end(cs@, from as int, verbatim),
        from <= r <= cs@.len(),
{
    let mut i: usize = from;
    while i < cs.len() && cs[i] != '\\' && (cs[i] != '/' || verbatim)
        invariant
            from <= i <= cs@.len(),
            part_end(cs@, from as int, verbatim) == part_end(cs@, i as int, verbatim),
        decreases cs@.len() - i,
    {
        i = i + 1;
    }
    i
}

fn find_next_part_end(cs: &Vec<char>, i: usize, verbatim: bool) -> (r: usize)
    requires
        i <= cs@.len(),
    ensures
        r == next_part_end(cs@, i as int, verbatim),
        i <= r <= cs@.len(),
{
    if i < cs.len() {
        let end: usize = find_part_end(cs, i + 1, verbatim);
        if end > i + 1 {
            return end;
        }
    }
    i
}

fn find_prefix_end(cs: &Vec<char>, verbatim: bool) -> (r: usize)
    requires
        verbatim == is_verbatim(cs@),
    ensures
        r == prefix_end(cs@),
        r <= cs@.len(),
{
    let n: usize = cs.len();
    if verbatim {
        proof {
            reveal_strlit("UNC\\");
            if n >= 8 {
                let head = cs@.subrange(4, 8);
                assert(head =~= "UNC\\"@ <==> (head[0] == 'U' && head[1] == 'N' && head[2] == 'C'
                    && head[3] == '\\'));
            }
        }
        if n >= 8 && cs[4] == 'U' && cs[5] == 'N' && cs[6] == 'C' && cs[7] == '\\' {
            let server: usize = find_part_end(cs, 8, true);
            find_next_part_end(cs, server, true)
        } else {
            find_part_end(cs, 4, true)
        }
    } else if n >= 2 && (cs[0] == '\\' || cs[0] == '/') && (cs[1] == '\\' || cs[1] == '/') {
        if n >= 4 && cs[2] == '.' && (cs[3] == '\\' || cs[3] == '/') {
            find_part_end(cs, 4, false)
        } else {
            let server: usize = find_part_end(cs, 2, false);
            let share: usize = find_next_part_end(cs, server, false);
            if server > 2 && share > server {
                share
            } else {
                0
            }
        }
    } else if n >= 2 && (('a' <= cs[0] && cs[0] <= 'z') || ('A' <= cs[0] && cs[0] <= 'Z')) && cs[1]
        == ':' {
        2
    } else {
        0
    }
}

fn ends_with_nothing(cs: &Vec<char>, to: usize, from: usize, verbatim: bool, rooted: bool) -> (r:
    bool)
    requires
        from < to <= cs@.len(),
        from == parts_begin(cs@),
        verbatim == is_verbatim(cs@),
        rooted == is_rooted(cs@),
    ensures
        r == (separates(cs@[to - 1], verbatim) || idle_part(cs@, to as int)),
{
    let c: char = cs[to - 1];
    if c == '\\' || (c == '/' && !verbatim) {
        true
    } else if c != '.' || verbatim {
        false
    } else if to - 1 > from {
        cs[to - 2] == '\\' || cs[to - 2] == '/'
    } else {
        rooted
    }
}

fn find_last_part_end(cs: &Vec<char>, to: usize, from: usize, verbatim: bool, rooted: bool) -> (r:
    usize)
    requires
        to <= cs@.len(),
        from == parts_begin(cs@),
        verbatim == is_verbatim(cs@),
        rooted == is_rooted(cs@),
    ensures
        r == last_part_end(cs@, to as int),
        r <= to,
        from <= to ==> from <= r,
{
    let mut e: usize = to;
    while e > from && ends_with_nothing(cs, e, from, verbatim, rooted)
        invariant
            e <= to <= cs@.len(),
            from <= to ==> from <= e,
            from == parts_begin(cs@),
            verbatim == is_verbatim(cs@),
            rooted == is_rooted(cs@),
            last_part_end(cs@, to as int) == last_part_end(cs@, e as int),
        decreases e,
    {
        e = e - 1;
    }
    e
}

/// The directory that a path is in.
pub fn directory_of(path: &str) -> (r: Option<String>)
    ensures
        match directory(path@) {
            Some(d) => r matches Some(s) && s@ == d,
            None => r is None,
        },
{
    let cs: Vec<char> = chars_of(path);
    let n: usize = cs.len();
    let verbatim: bool = n >= 4 && cs[0] == '\\' && cs[1] == '\\' && cs[2] == '?' && cs[3] == '\\';
    let prefix: usize = find_prefix_end(&cs, verbatim);
    let rooted: bool = prefix < n && (cs[prefix] == '\\' || (cs[prefix] == '/' && !verbatim));
    let from: usize = if rooted {
        prefix + 1
    } else {
        prefix
    };
    let end: usize = find_last_part_end(&cs, n, from, verbatim, rooted);
    if end <= from {
        return None;
    }
    let mut begin: usize = end;
    while begin > from && cs[begin - 1] != '\\' && (cs[begin - 1] != '/' || verbatim)
        invariant
            from <= begin <= end <= cs@.len(),
            from == parts_begin(cs@),
            verbatim == is_verbatim(cs@),
            part_begin(cs@, end as int) == part_begin(cs@, begin as int),
        decreases begin,
    {
        begin = begin - 1;
    }
    let stop: usize = find_last_part_end(&cs, begin, from, verbatim, rooted);
    assert(cs@.subrange(0, stop as int) =~= cs@.take(stop as int));
    Some(text_of(&cs, 0, stop))
}

/// The directory of the user's local data, from what the environment tells: that directory
/// itself, else the one below the roaming data, else the home directory.
pub open spec fn local_dir(
    local: Option<Seq<char>>,
    roaming: Option<Seq<char>>,
    home: Option<Seq<char>>,
) -> Option<Seq<char>> {
    match local {
        Some(d) => Some(d),
        None => match roaming {
            Some(r) => Some(r + "\\Local"@),
            None => home,
        },
    }
}

/// What a text holds, if there is one.
pub open spec fn held(t: Option<&str>) -> Option<Seq<char>> {
    match t {
        Some(s) => Some(s@),
        None => None,
    }
}

/// The directory of the user's local data.
pub fn base_dir(local: Option<&str>, roaming: Option<&str>, home: Option<&str>) -> (r: Option<
    String,
>)
    ensures
        match local_dir(held(local), held(roaming), held(home)) {
            Some(d) => r matches Some(s) && s@ == d,
            None => r is None,
        },
{
    match local {
        Some(d) => Some(d.to_owned()),
        None => match roaming {
            Some(a) => Some(join2(a, "\\Local")),
            None => match home {
                Some(h) => Some(h.to_owned()),
                None => None,
            },
        },
    }
}

/// Where a file of the input method is, below the user's local data.
pub open spec fn data_place(
    local: Option<Seq<char>>,
    roaming: Option<Seq<char>>,
    home: Option<Seq<char>>,
    name: Seq<char>,
) -> Option<Seq<char>> {
    match local_dir(local, roaming, home) {
        Some(d) => Some(below(below(d, "iuv"@), name)),
        None => None,
    }
}

/// Where a file of the input method is: in its directory below the user's local data. It has no
/// place where the environment tells nothing.
pub fn data_path(
    local: Option<&str>,
    roaming: Option<&str>,
    home: Option<&str>,
    name: &str,
) -> (r: Option<String>)
    ensures
        match data_place(held(local), held(roaming), held(home), name@) {
            Some(d) => r matches Some(s) && s@ == d,
            None => r is None,
        },
{
    match base_dir(local, roaming, home) {
        Some(base) => {
            let dir: String = path_below(base.as_str(), "iuv");
            Some(path_below(dir.as_str(), name))
        },
        None => None,
    }
}

/// Where a file of the engine is.
pub open spec fn dict_place(
    local: Option<Seq<char>>,
    roaming: Option<Seq<char>>,
    name: Seq<char>,
) -> Seq<char> {
    let base = match local {
        Some(d) => d,
        None => match roaming {
            Some(a) => below(a, "Local"@),
            None => "C:\\Users\\Default\\AppData\\Local"@,
        },
    };
    below(below(base, "iuv"@), name)
}

/// Where a file of the engine is. It always has a place: without the environment, below the data
/// of the default user.
pub fn dict_path(local: Option<&str>, roaming: Option<&str>, name: &str) -> (r: String)
    ensures
        r@ == dict_place(held(local), held(roaming), name@),
{
    let base: String = match local {
        Some(d) => d.to_owned(),
        None => match roaming {
            Some(a) => path_below(a, "Local"),
            None => "C:\\Users\\Default\\AppData\\Local".to_owned(),
        },
    };
    let dir: String = path_below(base.as_str(), "iuv");
    path_below(dir.as_str(), name)
}

/// Where the settings are: below the user's local data, and nowhere where the environment does
/// not tell those.
pub fn config_path(local: Option<&str>) -> (r: Option<String>)
    ensures
        match local {
            Some(d) => r matches Some(s) && s@ == below(below(d@, "iuv"@), CONFIG_FILENAME@),
            None => r is None,
        },
{
    match local {
        Some(d) => {
            let dir: String = path_below(d, "iuv");
            Some(path_below(dir.as_str(), CONFIG_FILENAME))
        },
        None => None,
    }
}

/// Where the toolbar's preferences are.
pub fn pref_path(local: Option<&str>, roaming: Option<&str>, home: Option<&str>) -> (r: Option<
    String,
>)
    ensures
        match data_place(held(local), held(roaming), held(home), TOOLBAR_FILENAME@) {
            Some(d) => r matches Some(s) && s@ == d,
            None => r is None,
        },
{
    data_path(local, roaming, home, TOOLBAR_FILENAME)
}

/// Where the engine looks for the dictionary of the user.
pub fn user_dict_path(local: Option<&str>, roaming: Option<&str>) -> (r: String)
    ensures
        r@ == dict_place(held(local), held(roaming), USER_DICT_FILENAME@),
{
    dict_path(local, roaming, USER_DICT_FILENAME)
}

/// Where the engine looks for the table of traditional characters.
pub fn script_path(local: Option<&str>, roaming: Option<&str>) -> (r: String)
    ensures
        r@ == dict_place(held(local), held(roaming), SCRIPT_FILENAME@),
{
    dict_path(local, roaming, SCRIPT_FILENAME)
}

/// The daemon and the programs look for a file in the same place, where the environment tells
/// the user's local data, or the roaming data without a separator behind it and not as a bare
/// drive.
pub proof fn law_same_place(
    local: Option<Seq<char>>,
    roaming: Option<Seq<char>>,
    home: Option<Seq<char>>,
    name: Seq<char>,
)
    requires
        local is Some || (roaming matches Some(r) && r.len() > 0 && r.last() != '\\' && r.last()
            != '/' && !is_drive(r)),
    ensures
        data_place(local, roaming, home, name) == Some(dict_place(local, roaming, name)),
{
    reveal_strlit("\\Local");
    reveal_strlit("\\");
    reveal_strlit("Local");
    if let Some(r) = roaming {
        assert(r + "\\"@ + "Local"@ =~= r + "\\Local"@);
    }
}

/// A name goes under a directory behind one backslash; where the directory ends with a separator,
/// is a bare drive or is nothing, directly behind it.
pub proof fn law_below(dir: Seq<char>, name: Seq<char>)
    ensures
        ({
            let p = below(dir, name);
            let joint = p.len() - dir.len() - name.len();
            &&& joint == 0 || joint == 1
            &&& p.subrange(0, dir.len() as int) == dir
            &&& p.subrange(p.len() - name.len(), p.len() as int) == name
            &&& joint == 1 ==> p[dir.len() as int] == '\\'
            &&& joint == 0 <==> dir.len() == 0 || dir.last() == '\\' || dir.last() == '/' || (
            dir.len() == 2 && ime::is_letter(dir[0]) && dir[1] == ':')
        }),
{
    reveal_strlit("\\");
    let p = below(dir, name);
    assert(p.subrange(0, dir.len() as int) =~= dir);
    assert(p.subrange(p.len() - name.len(), p.len() as int) =~= name);
}

proof fn part_back(t: Seq<char>, to: int, from: int)
    requires
        parts_begin(t) <= from <= to <= t.len(),
        0 < from,
        separates(t[from - 1], is_verbatim(t)),
        forall|i: int| from <= i < to ==> !separates(#[trigger] t[i], is_verbatim(t)),
    ensures
        part_begin(t, to) == from,
    decreases to,
{
    if to > from {
        part_back(t, to - 1, from);
    }
}

/// The directory of a file that lies below a directory of a drive is that directory.
pub proof fn law_directory_of_file(dir: Seq<char>, name: Seq<char>)
    requires
        dir.len() > 3,
        ime::is_letter(dir[0]),
        dir[1] == ':',
        dir[2] == '\\',
        dir.last() != '\\',
        dir.last() != '/',
        dir.last() != '.',
        name.len() > 0,
        name.len() > 1 || name[0] != '.',
        forall|i: int| 0 <= i < name.len() ==> #[trigger] name[i] != '\\' && name[i] != '/',
    ensures
        directory(below(dir, name)) == Some(dir),
{
    reveal_strlit("\\");
    let t = below(dir, name);
    let n = dir.len() as int;
    assert(t =~= dir + seq!['\\'] + name);
    assert(t[0] == dir[0] && t[1] == ':' && t[2] == '\\' && t[n] == '\\');
    assert(!is_verbatim(t));
    assert(prefix_end(t) == 2);
    assert(parts_begin(t) == 3);
    assert forall|i: int| n + 1 <= i < t.len() implies !separates(
        #[trigger] t[i],
        is_verbatim(t),
    ) by {
        assert(t[i] == name[i - n - 1]);
    }
    let len = t.len() as int;
    assert(t[len - 1] == name.last());
    assert(!idle_part(t, len)) by {
        if name.len() > 1 {
            assert(t[len - 2] == name[name.len() - 2]);
        }
    }
    assert(last_part_end(t, len) == len);
    part_back(t, len, n + 1);
    assert(t[n - 1] == dir.last());
    assert(last_part_end(t, n) == n);
    assert(last_part_end(t, n + 1) == last_part_end(t, n));
    assert(t.take(n) =~= dir);
}

/// What the local directory is called comes first, then what lies below the roaming one, and the
/// home directory only where there is neither; a file goes into the folder of the input method
/// there.
pub proof fn law_where_data_lies(
    local: Seq<char>,
    roaming: Option<Seq<char>>,
    home: Option<Seq<char>>,
    r: Seq<char>,
    name: Seq<char>,
)
    ensures
        local_dir(Some(local), roaming, home) == Some(local),
        local_dir(None, Some(r), home) == Some(r + "\\Local"@),
        local_dir(None, None, home) == home,
        data_place(Some(local), roaming, home, name) == Some(below(below(local, "iuv"@), name)),
        data_place(None, Some(r), home, name) == Some(
            below(below(r + "\\Local"@, "iuv"@), name),
        ),
        data_place(None, None, None, name) is None,
        home is Some ==> data_place(None, None, home, name) == Some(
            below(below(home->0, "iuv"@), name),
        ),
        dict_place(Some(local), roaming, name) == below(below(local, "iuv"@), name),
        dict_place(None, Some(r), name) == below(below(below(r, "Local"@), "iuv"@), name),
        dict_place(None, None, name) == below(
            below("C:\\Users\\Default\\AppData\\Local"@, "iuv"@),
            name,
        ),
{
}

proof fn part_ends(t: Seq<char>, i: int, end: int, verbatim: bool)
    requires
        0 <= i <= end <= t.len(),
        end < t.len() ==> separates(t[end], verbatim),
        forall|k: int| i <= k < end ==> !separates(#[trigger] t[k], verbatim),
    ensures
        part_end(t, i, verbatim) == end,
    decreases end - i,
{
    if i < end {
        part_ends(t, i + 1, end, verbatim);
    }
}

/// What comes before a path's root: a drive, or the server and the share of a network path, which
/// needs both. A path that begins with neither has nothing there.
pub proof fn law_prefixes(t: Seq<char>, server: int, share: int)
    requires
        !is_verbatim(t),
        t.len() < 4 || t[2] != '.' || !separates(t[3], false),
    ensures
        t.len() >= 2 && ime::is_letter(t[0]) && t[1] == ':' ==> prefix_end(t) == 2,
        t.len() >= 1 && !separates(t[0], false) && (t.len() < 2 || t[1] != ':') ==> prefix_end(t)
            == 0,
        t.len() >= 2 && t[0] == '\\' && t[1] == '\\' && 2 < server && server + 1 < share <= t.len()
            && t[server] == '\\' && (share < t.len() ==> t[share] == '\\') && (forall|k: int|
            (2 <= k < server || server < k < share) ==> !separates(#[trigger] t[k], false))
            ==> prefix_end(t) == share,
        t.len() >= 3 && t[0] == '\\' && t[1] == '\\' && (forall|k: int|
            2 <= k < t.len() ==> !separates(#[trigger] t[k], false)) ==> prefix_end(t) == 0,
{
    if t.len() >= 2 && t[0] == '\\' && t[1] == '\\' && 2 < server && server + 1 < share <= t.len()
        && t[server] == '\\' && (share < t.len() ==> t[share] == '\\') && (forall|k: int|
        (2 <= k < server || server < k < share) ==> !separates(#[trigger] t[k], false)) {
        part_ends(t, 2, server, false);
        part_ends(t, server + 1, share, false);
    }
    if t.len() >= 3 && t[0] == '\\' && t[1] == '\\' && (forall|k: int|
        2 <= k < t.len() ==> !separates(#[trigger] t[k], false)) {
        part_ends(t, 2, t.len() as int, false);
    }
}

} // verus!
