use crate::utils::{same_text, views};
use vstd::prelude::*;

verus! {

/// Position `i` holds the first colon of `s`.
pub open spec fn is_first_colon(s: Seq<char>, i: int) -> bool {
    0 <= i < s.len() && s[i] == ':' && forall|j: int| 0 <= j < i ==> s[j] != ':'
}

/// `s` holds a colon.
pub open spec fn has_colon(s: Seq<char>) -> bool {
    exists|i: int| 0 <= i < s.len() && s[i] == ':'
}

/// The position of the first colon of `s`, which must hold one.
pub open spec fn colon_pos(s: Seq<char>) -> int {
    choose|i: int| is_first_colon(s, i)
}

/// What comes before the first colon of `s`; all of `s` when it has none.
pub open spec fn before_colon(s: Seq<char>) -> Seq<char> {
    if has_colon(s) {
        s.take(colon_pos(s))
    } else {
        s
    }
}

/// What comes after the first colon of `s`; all of `s` when it has none.
pub open spec fn after_colon(s: Seq<char>) -> Seq<char> {
    if has_colon(s) {
        s.skip(colon_pos(s) + 1)
    } else {
        s
    }
}

/// The path of a content match `path:line:text`.
pub open spec fn path_part(entry: Seq<char>) -> Seq<char> {
    before_colon(entry)
}

/// The line field of a content match `path:line:text`.
pub open spec fn line_part(entry: Seq<char>) -> Seq<char> {
    before_colon(after_colon(entry))
}

proof fn lemma_first_colon_unique(s: Seq<char>, i: int)
    requires
        is_first_colon(s, i),
    ensures
        has_colon(s),
        colon_pos(s) == i,
{
    let k = colon_pos(s);
    assert(is_first_colon(s, k));
    if k < i {
        assert(s[k] != ':');
    } else if i < k {
        assert(s[i] != ':');
    }
}

/// The position of the first colon of `s`, if any.
pub fn first_colon(s: &str) -> (r: Option<usize>)
    ensures
        r matches Some(i) ==> is_first_colon(s@, i as int),
        r is None ==> !has_colon(s@),
        r matches Some(i) ==> i < s@.len(),
{
    let n = s.unicode_len();
    let mut i: usize = 0;
    while i < n
        invariant
            n == s@.len(),
            i <= n,
            forall|j: int| 0 <= j < i ==> s@[j] != ':',
        decreases n - i,
    {
        if s.get_char(i) == ':' {
            return Some(i);
        }
        i = i + 1;
    }
    None
}

/// Splits `s` at its first colon: the part before and the part after.
pub fn split_at_colon(s: &str) -> (r: Option<(String, String)>)
    ensures
        r is None <==> !has_colon(s@),
        r matches Some(p) ==> p.0@ == before_colon(s@) && p.1@ == after_colon(s@),
{
    match first_colon(s) {
        None => None,
        Some(i) => {
            proof {
                lemma_first_colon_unique(s@, i as int);
            }
            let n = s.unicode_len();
            let before = s.substring_char(0, i).to_string();
            let after = s.substring_char(i + 1, n).to_string();
            proof {
                assert(before@ =~= s@.take(i as int));
                assert(after@ =~= s@.skip(i + 1));
            }
            Some((before, after))
        },
    }
}

/// The path of a content match.
pub fn entry_path(entry: &str) -> (r: String)
    ensures
        r@ == path_part(entry@),
{
    match split_at_colon(entry) {
        Some(p) => p.0,
        None => entry.to_string(),
    }
}

/// The line field of a content match.
pub fn entry_line(entry: &str) -> (r: String)
    ensures
        r@ == line_part(entry@),
{
    let rest = match split_at_colon(entry) {
        Some(p) => p.1,
        None => entry.to_string(),
    };
    match split_at_colon(rest.as_str()) {
        Some(p) => p.0,
        None => rest,
    }
}

/// The value of an ASCII decimal digit.
pub open spec fn digit_value(c: char) -> nat {
    (c as u32 - '0' as u32) as nat
}

/// Every character of `s` is an ASCII decimal digit.
pub open spec fn all_digits(s: Seq<char>) -> bool {
    forall|i: int| 0 <= i < s.len() ==> '0' <= #[trigger] s[i] && s[i] <= '9'
}

/// The number that a string of decimal digits denotes.
pub open spec fn digits_value(s: Seq<char>) -> nat
    decreases s.len(),
{
    if s.len() == 0 {
        0
    } else {
        digits_value(s.drop_last()) * 10 + digit_value(s.last())
    }
}

/// A line number as `usize` parses it: an optional `+`, then at least one
/// decimal digit, with a value that fits.
pub open spec fn parsed_number(s: Seq<char>) -> Option<usize> {
    let d = if s.len() > 0 && s[0] == '+' {
        s.drop_first()
    } else {
        s
    };
    if d.len() > 0 && all_digits(d) && digits_value(d) <= usize::MAX {
        Some(digits_value(d) as usize)
    } else {
        None
    }
}

proof fn lemma_digits_value_grows(s: Seq<char>, k: int)
    requires
        0 <= k <= s.len(),
    ensures
        digits_value(s.take(k)) <= digits_value(s),
    decreases s.len() - k,
{
    if k < s.len() {
        lemma_digits_value_grows(s, k + 1);
        assert(s.take(k + 1).drop_last() =~= s.take(k));
    } else {
        assert(s.take(k) =~= s);
    }
}

/// Parses a line number.
pub fn parse_number(s: &str) -> (r: Option<usize>)
    ensures
        r == parsed_number(s@),
{
    let n = s.unicode_len();
    let start: usize = if n > 0 && s.get_char(0) == '+' {
        1
    } else {
        0
    };
    let ghost d = if s@.len() > 0 && s@[0] == '+' {
        s@.drop_first()
    } else {
        s@
    };
    proof {
        assert(parsed_number(s@) == (if d.len() > 0 && all_digits(d) && digits_value(d) <= usize::MAX {
            Some(digits_value(d) as usize)
        } else {
            None
        }));
    }
    if start >= n {
        return None;
    }
    let mut acc: u128 = 0;
    let mut i: usize = start;
    while i < n
        invariant
            n == s@.len(),
            start <= i <= n,
            d == s@.skip(start as int),
            parsed_number(s@) == (if d.len() > 0 && all_digits(d) && digits_value(d) <= usize::MAX {
                Some(digits_value(d) as usize)
            } else {
                None
            }),
            all_digits(d.take(i - start)),
            acc == digits_value(d.take(i - start)),
            acc <= usize::MAX,
        decreases n - i,
    {
        let c = s.get_char(i);
        proof {
            assert(d.take(i - start + 1).drop_last() =~= d.take(i - start));
            assert(d[i - start] == c);
        }
        if c < '0' || c > '9' {
            proof {
                assert(!('0' <= d[i - start] && d[i - start] <= '9'));
            }
            return None;
        }
        acc = acc * 10 + (c as u32 - '0' as u32) as u128;
        if acc > usize::MAX as u128 {
            proof {
                lemma_digits_value_grows(d, i - start + 1);
            }
            return None;
        }
        i = i + 1;
    }
    proof {
        assert(d.take(n - start) =~= d);
    }
    Some(acc as usize)
}

/// The file and line that a content match designates, when its line field is
/// a line number.
pub open spec fn entry_target(entry: Seq<char>) -> Option<(Seq<char>, usize)> {
    if has_colon(entry) && has_colon(after_colon(entry)) {
        match parsed_number(line_part(entry)) {
            Some(n) => Some((path_part(entry), n)),
            None => None,
        }
    } else {
        None
    }
}

/// Every non-overlapping occurrence of a non-empty `from` in `s`, leftmost
/// first, replaced by `to`.
pub open spec fn replaced(s: Seq<char>, from: Seq<char>, to: Seq<char>) -> Seq<char>
    decreases s.len(),
{
    if from.len() == 0 || s.len() < from.len() {
        s
    } else if s.take(from.len() as int) == from {
        to + replaced(s.skip(from.len() as int), from, to)
    } else {
        seq![s[0]] + replaced(s.drop_first(), from, to)
    }
}

/// Relies on `str::replace` with a non-empty pattern: each non-overlapping
/// occurrence, leftmost first, is replaced.
#[verifier::external_body]
fn replace_text(s: &str, from: &str, to: &str) -> (r: String)
    requires
        from@.len() > 0,
    ensures
        r@ == replaced(s@, from@, to@),
{
    s.replace(from, to)
}

/// The lines of the file at `path` after the replacement that one content
/// match asks for; a match of another file, or of a line past the end, leaves
/// them as they are.
pub open spec fn apply_entry(
    lines: Seq<Seq<char>>,
    path: Seq<char>,
    entry: Seq<char>,
    from: Seq<char>,
    to: Seq<char>,
) -> Seq<Seq<char>> {
    match entry_target(entry) {
        Some(t) => if t.0 == path && 1 <= t.1 <= lines.len() {
            lines.update(t.1 - 1, replaced(lines[t.1 - 1], from, to))
        } else {
            lines
        },
        None => lines,
    }
}

/// The lines of the file at `path` after the replacements of all `entries`,
/// in order.
pub open spec fn apply_entries(
    lines: Seq<Seq<char>>,
    path: Seq<char>,
    entries: Seq<Seq<char>>,
    from: Seq<char>,
    to: Seq<char>,
) -> Seq<Seq<char>>
    decreases entries.len(),
{
    if entries.len() == 0 {
        lines
    } else {
        apply_entry(apply_entries(lines, path, entries.drop_last(), from, to), path, entries.last(), from, to)
    }
}

/// The file and line of a content match, when it designates one.
pub fn parse_entry(entry: &str) -> (r: Option<(String, usize)>)
    ensures
        r matches Some(t) ==> entry_target(entry@) == Some((t.0@, t.1)),
        r is None ==> entry_target(entry@) is None,
{
    match split_at_colon(entry) {
        None => None,
        Some(p) => {
            match split_at_colon(p.1.as_str()) {
                None => None,
                Some(q) => match parse_number(q.0.as_str()) {
                    Some(n) => Some((p.0, n)),
                    None => None,
                },
            }
        },
    }
}

/// Replaces `filter` by `replacement` on each line of the file at `path`
/// that one of `entries` designates.
pub fn replace_in_file(
    path: &str,
    lines: Vec<String>,
    entries: &Vec<String>,
    filter: &str,
    replacement: &str,
) -> (r: Vec<String>)
    requires
        filter@.len() > 0,
    ensures
        views(r@) == apply_entries(views(lines@), path@, views(entries@), filter@, replacement@),
{
    let mut lines = lines;
    let ghost start = views(lines@);
    let n = entries.len();
    for k in 0..n
        invariant
            n == entries@.len(),
            filter@.len() > 0,
            views(lines@) == apply_entries(start, path@, views(entries@).take(k as int), filter@, replacement@),
    {
        proof {
            assert(views(entries@).take(k + 1).drop_last() =~= views(entries@).take(k as int));
        }
        let ghost before = views(lines@);
        match parse_entry(entries[k].as_str()) {
            Some(t) => {
                if same_text(t.0.as_str(), path) && 1 <= t.1 && t.1 <= lines.len() {
                    let new_line = replace_text(lines[t.1 - 1].as_str(), filter, replacement);
                    lines.set(t.1 - 1, new_line);
                    proof {
                        assert(views(lines@) =~= before.update(t.1 - 1, replaced(before[t.1 - 1], filter@, replacement@)));
                    }
                }
            },
            None => {},
        }
    }
    proof {
        assert(views(entries@).take(n as int) =~= views(entries@));
    }
    lines
}

/// The distinct files that `entries` designate, in order of first mention.
pub open spec fn target_files(entries: Seq<Seq<char>>) -> Seq<Seq<char>>
    decreases entries.len(),
{
    if entries.len() == 0 {
        Seq::empty()
    } else {
        let rest = target_files(entries.drop_last());
        match entry_target(entries.last()) {
            Some(t) => if rest.contains(t.0) {
                rest
            } else {
                rest.push(t.0)
            },
            None => rest,
        }
    }
}

/// The distinct files that `entries` designate, in order of first mention.
pub fn replace_files(entries: &Vec<String>) -> (r: Vec<String>)
    ensures
        views(r@) == target_files(views(entries@)),
{
    let mut r: Vec<String> = Vec::new();
    let n = entries.len();
    for i in 0..n
        invariant
            n == entries@.len(),
            views(r@) == target_files(views(entries@).take(i as int)),
    {
        proof {
            assert(views(entries@).take(i + 1).drop_last() =~= views(entries@).take(i as int));
        }
        match parse_entry(entries[i].as_str()) {
            Some(t) => {
                let mut seen = false;
                let m = r.len();
                for q in 0..m
                    invariant
                        m == r@.len(),
                        seen <==> exists|x: int| 0 <= x < q && r@[x]@ == t.0@,
                {
                    if same_text(r[q].as_str(), t.0.as_str()) {
                        seen = true;
                    }
                }
                let ghost before = views(r@);
                proof {
                    if seen {
                        let x = choose|x: int| 0 <= x < m && r@[x]@ == t.0@;
                        assert(before[x] == t.0@);
                    } else {
                        assert forall|x: int| 0 <= x < before.len() implies before[x] != t.0@ by {
                            assert(r@[x]@ != t.0@);
                        }
                    }
                }
                if !seen {
                    r.push(t.0);
                    proof {
                        assert(views(r@) =~= before.push(t.0@));
                    }
                }
            },
            None => {},
        }
    }
    proof {
        assert(views(entries@).take(n as int) =~= views(entries@));
    }
    r
}

/// The lines of a file joined by newlines.
pub open spec fn joined_lines(lines: Seq<Seq<char>>) -> Seq<char>
    decreases lines.len(),
{
    if lines.len() == 0 {
        Seq::empty()
    } else if lines.len() == 1 {
        lines[0]
    } else {
        joined_lines(lines.drop_last()).push('\n') + lines.last()
    }
}

/// Joins lines with newlines between them.
pub fn join_lines(lines: &Vec<String>) -> (r: String)
    ensures
        r@ == joined_lines(views(lines@)),
{
    let mut r = String::new();
    let n = lines.len();
    for k in 0..n
        invariant
            n == lines@.len(),
            r@ == joined_lines(views(lines@).take(k as int)),
    {
        proof {
            assert(views(lines@).take(k + 1).drop_last() =~= views(lines@).take(k as int));
        }
        if k > 0 {
            crate::utils::push_char(&mut r, '\n');
        }
        r.append(lines[k].as_str());
        proof {
            if k == 0 {
                assert(r@ =~= views(lines@).take(1)[0]);
            }
        }
    }
    proof {
        assert(views(lines@).take(n as int) =~= views(lines@));
    }
    r
}

} // verus!
