use crate::utils::{clean_utf8_content, cleaned, lower_of, to_lower, views};
use vstd::prelude::*;
use vstd::utf8::encode_utf8;

verus! {

/// `needle` occurs in `haystack` starting at position `i`.
pub open spec fn occurs_at(haystack: Seq<u8>, needle: Seq<u8>, i: int) -> bool {
    0 <= i && i + needle.len() <= haystack.len() && haystack.subrange(i, i + needle.len()) == needle
}

/// `needle` occurs somewhere in `haystack`.
pub open spec fn has_infix(haystack: Seq<u8>, needle: Seq<u8>) -> bool {
    exists|i: int| occurs_at(haystack, needle, i)
}

/// Relies on memchr's `memmem::find`: the position of the first occurrence of
/// `needle` in `haystack`, or `None` when there is none.
#[verifier::external_body]
fn find_bytes(haystack: &[u8], needle: &[u8]) -> (r: Option<usize>)
    ensures
        r matches Some(i) ==> occurs_at(haystack@, needle@, i as int) && forall|j: int|
            0 <= j < i ==> !occurs_at(haystack@, needle@, j),
        r is None ==> !has_infix(haystack@, needle@),
{
    memchr::memmem::find(haystack, needle)
}

/// The text `line` contains the text `query`, as UTF-8 bytes.
pub open spec fn text_contains(line: Seq<char>, query: Seq<char>) -> bool {
    has_infix(encode_utf8(line), encode_utf8(query))
}

/// Whether a (lower-cased) line contains a (lower-cased) search term.
pub fn line_matches(lowered_line: &str, lowered_query: &str) -> (r: bool)
    ensures
        r == text_contains(lowered_line@, lowered_query@),
{
    match find_bytes(lowered_line.as_bytes(), lowered_query.as_bytes()) {
        Some(_) => true,
        None => false,
    }
}

/// The decimal digit `d`.
pub open spec fn digit_char(d: nat) -> char {
    if d == 0 {
        '0'
    } else if d == 1 {
        '1'
    } else if d == 2 {
        '2'
    } else if d == 3 {
        '3'
    } else if d == 4 {
        '4'
    } else if d == 5 {
        '5'
    } else if d == 6 {
        '6'
    } else if d == 7 {
        '7'
    } else if d == 8 {
        '8'
    } else {
        '9'
    }
}

/// The decimal notation of `n`, without leading zeros.
pub open spec fn decimal(n: nat) -> Seq<char>
    decreases n,
{
    if n < 10 {
        seq![digit_char(n)]
    } else {
        decimal(n / 10).push(digit_char(n % 10))
    }
}

/// A content match as `path:line:text`.
pub open spec fn match_record(path: Seq<char>, line_no: nat, line: Seq<char>) -> Seq<char> {
    path + seq![':'] + decimal(line_no) + seq![':'] + line
}

/// Relies on `format!` with the `Display` of `&str` (the text itself) and of
/// `usize` (decimal digits without padding).
#[verifier::external_body]
fn format_record(path: &str, line_no: usize, line: &str) -> (r: String)
    ensures
        r@ == match_record(path@, line_no as nat, line@),
{
    format!("{}:{}:{}", path, line_no, line)
}

/// The texts of lines that may have failed to read.
pub open spec fn line_views(lines: Seq<Option<String>>) -> Seq<Option<Seq<char>>> {
    lines.map_values(|o: Option<String>| match o {
        Some(s) => Some(s@),
        None => None,
    })
}

/// The match records of a file's lines for a lower-case search term: one for
/// each line that was read and whose lower-case form contains the term, in
/// line order, numbered from 1 and cleaned for display.
pub open spec fn scanned(path: Seq<char>, lines: Seq<Option<Seq<char>>>, query: Seq<char>) -> Seq<Seq<char>>
    decreases lines.len(),
{
    if lines.len() == 0 {
        Seq::empty()
    } else {
        let rest = scanned(path, lines.drop_last(), query);
        match lines.last() {
            Some(l) => if text_contains(lower_of(l), query) {
                rest.push(cleaned(match_record(path, lines.len(), l)))
            } else {
                rest
            },
            None => rest,
        }
    }
}

/// Scans the lines of the file at `path` for a lower-case search term; a
/// line that could not be read is `None` and never matches.
pub fn scan_file(path: &str, lines: &Vec<Option<String>>, lowered_query: &str) -> (r: Vec<String>)
    ensures
        views(r@) == scanned(path@, line_views(lines@), lowered_query@),
{
    let mut r: Vec<String> = Vec::new();
    let n = lines.len();
    for k in 0..n
        invariant
            n == lines@.len(),
            views(r@) == scanned(path@, line_views(lines@).take(k as int), lowered_query@),
    {
        let ghost before = views(r@);
        proof {
            assert(line_views(lines@).take(k + 1).drop_last() =~= line_views(lines@).take(k as int));
        }
        match &lines[k] {
            Some(line) => {
                let lowered = to_lower(line.as_str());
                if line_matches(lowered.as_str(), lowered_query) {
                    let record = format_record(path, k + 1, line.as_str());
                    r.push(clean_utf8_content(record.as_str()));
                    proof {
                        assert(views(r@) =~= before.push(cleaned(match_record(path@, (k + 1) as nat, line@))));
                    }
                }
            },
            None => {},
        }
    }
    proof {
        assert(line_views(lines@).take(n as int) =~= line_views(lines@));
    }
    r
}

} // verus!
