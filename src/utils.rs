use vstd::prelude::*;

verus! {

/// The character sequences held by a list of strings.
pub open spec fn views(v: Seq<String>) -> Seq<Seq<char>> {
    v.map_values(|s: String| s@)
}

/// Characters kept for display: printable ASCII other than space, plus space
/// and newline.
pub open spec fn is_displayable(c: char) -> bool {
    ('!' <= c && c <= '~') || c == '\n' || c == ' '
}

/// The displayable characters of `s`, in order.
pub open spec fn cleaned(s: Seq<char>) -> Seq<char> {
    s.filter(|c: char| is_displayable(c))
}

/// Relies on `String::push`: appends one character.
#[verifier::external_body]
pub(crate) fn push_char(s: &mut String, c: char)
    ensures
        final(s)@ == old(s)@.push(c),
{
    s.push(c)
}

/// Relies on `String::pop`: removes the last character, if any.
#[verifier::external_body]
pub(crate) fn pop_char(s: &mut String)
    ensures
        final(s)@ == if old(s)@.len() > 0 {
            old(s)@.drop_last()
        } else {
            old(s)@
        },
{
    s.pop();
}

/// Removes control characters and non-ASCII characters, keeping spaces and
/// newlines.
pub fn clean_utf8_content(content: &str) -> (r: String)
    ensures
        r@ == cleaned(content@),
{
    let mut r = String::new();
    for c in it: content.chars()
        invariant
            it.seq() == content@,
            r@ == cleaned(content@.take(it.index() as int)),
    {
        proof {
            let k = it.index() as int;
            reveal(Seq::filter);
            assert(content@.take(k + 1).drop_last() =~= content@.take(k));
            assert(content@.take(k + 1).last() == c);
        }
        if ('!' <= c && c <= '~') || c == '\n' || c == ' ' {
            push_char(&mut r, c);
        }
    }
    proof {
        assert(content@.take(content@.len() as int) =~= content@);
    }
    r
}


/// What `str::to_lowercase` makes of a text.
pub uninterp spec fn lower_of(s: Seq<char>) -> Seq<char>;

/// Whether the directory walk enters an entry with this file name: anything
/// but version-control metadata, and any name that is not valid text.
pub fn skip_git(file_name: Option<&str>) -> (r: bool)
    ensures
        r == match file_name {
            Some(n) => n@ != ".git"@,
            None => true,
        },
{
    match file_name {
        Some(n) => !same_text(n, ".git"),
        None => true,
    }
}

/// Relies on `str::to_lowercase`: the result depends on the characters alone,
/// and an empty text stays empty.
#[verifier::external_body]
pub(crate) fn to_lower(s: &str) -> (r: String)
    ensures
        r@ == lower_of(s@),
        s@.len() == 0 ==> r@.len() == 0,
{
    s.to_lowercase()
}

/// Whether two texts hold the same characters.
pub fn same_text(a: &str, b: &str) -> (r: bool)
    ensures
        r == (a@ == b@),
{
    a.to_string() == b.to_string()
}

/// A colour of the display palette.
#[derive(Clone, Copy, PartialEq, Eq, Structural, Debug)]
pub enum Color {
    LightBlue,
    Blue,
    LightRed,
    LightGreen,
    Green,
    LightCyan,
    Cyan,
    LightYellow,
    Yellow,
    Gray,
    White,
}

/// The colour a lower-case configuration name stands for; unknown names give
/// light blue. The name "red" gives green.
pub open spec fn color_for(name: Seq<char>) -> Color {
    if name == "lightblue"@ {
        Color::LightBlue
    } else if name == "blue"@ {
        Color::Blue
    } else if name == "lightred"@ {
        Color::LightRed
    } else if name == "red"@ {
        Color::Green
    } else if name == "lightgreen"@ {
        Color::LightGreen
    } else if name == "green"@ {
        Color::Green
    } else if name == "lightcyan"@ {
        Color::LightCyan
    } else if name == "cyan"@ {
        Color::Cyan
    } else if name == "lightyellow"@ {
        Color::LightYellow
    } else if name == "yellow"@ {
        Color::Yellow
    } else if name == "gray"@ {
        Color::Gray
    } else if name == "white"@ {
        Color::White
    } else {
        Color::LightBlue
    }
}

/// The colour that an already lower-case name stands for.
pub fn color_named(lowered: &str) -> (r: Color)
    ensures
        r == color_for(lowered@),
{
    if same_text(lowered, "lightblue") {
        Color::LightBlue
    } else if same_text(lowered, "blue") {
        Color::Blue
    } else if same_text(lowered, "lightred") {
        Color::LightRed
    } else if same_text(lowered, "red") {
        Color::Green
    } else if same_text(lowered, "lightgreen") {
        Color::LightGreen
    } else if same_text(lowered, "green") {
        Color::Green
    } else if same_text(lowered, "lightcyan") {
        Color::LightCyan
    } else if same_text(lowered, "cyan") {
        Color::Cyan
    } else if same_text(lowered, "lightyellow") {
        Color::LightYellow
    } else if same_text(lowered, "yellow") {
        Color::Yellow
    } else if same_text(lowered, "gray") {
        Color::Gray
    } else if same_text(lowered, "white") {
        Color::White
    } else {
        Color::LightBlue
    }
}

/// The colour a configuration name stands for, whatever its case.
pub fn grab_config_color(color_str: &str) -> (r: Color)
    ensures
        r == color_for(lower_of(color_str@)),
{
    let lowered = to_lower(color_str);
    color_named(lowered.as_str())
}

/// What one character of terminal output becomes on screen: carriage
/// returns vanish and a tab becomes four spaces.
pub open spec fn tidied_char(c: char) -> Seq<char> {
    if c == '\r' {
        Seq::empty()
    } else if c == '\t' {
        seq![' ', ' ', ' ', ' ']
    } else {
        seq![c]
    }
}

/// Terminal output with carriage returns removed and tabs expanded.
pub open spec fn tidied(s: Seq<char>) -> Seq<char>
    decreases s.len(),
{
    if s.len() == 0 {
        s
    } else {
        tidied(s.drop_last()) + tidied_char(s.last())
    }
}

/// Removes carriage returns and expands each tab into four spaces.
pub fn tidy_terminal_text(s: &str) -> (r: String)
    ensures
        r@ == tidied(s@),
{
    let mut r = String::new();
    for c in it: s.chars()
        invariant
            it.seq() == s@,
            r@ == tidied(s@.take(it.index() as int)),
    {
        proof {
            let k = it.index() as int;
            assert(s@.take(k + 1).drop_last() =~= s@.take(k));
            assert(s@.take(k + 1).last() == c);
        }
        if c == '\r' {
        } else if c == '\t' {
            push_char(&mut r, ' ');
            push_char(&mut r, ' ');
            push_char(&mut r, ' ');
            push_char(&mut r, ' ');
        } else {
            push_char(&mut r, c);
        }
        proof {
            let k = it.index() as int;
            assert(tidied(s@.take(k + 1)) == tidied(s@.take(k)) + tidied_char(c));
        }
    }
    proof {
        assert(s@.take(s@.len() as int) =~= s@);
    }
    r
}

/// Whether the regex crate accepts `pattern`.
pub uninterp spec fn regex_compiles(pattern: Seq<char>) -> bool;

/// What the regex crate's `replace_all` with an empty replacement leaves of
/// `text`.
pub uninterp spec fn regex_erased(pattern: Seq<char>, text: Seq<char>) -> Seq<char>;

/// Relies on regex's `Regex::new`, which accepts or refuses a pattern by its
/// syntax alone, and `Regex::replace_all` with an empty replacement, whose
/// result depends on the pattern and the text alone.
#[verifier::external_body]
fn erase_matches(pattern: &str, text: &str) -> (r: Option<String>)
    ensures
        r is Some <==> regex_compiles(pattern@),
        r matches Some(t) ==> t@ == regex_erased(pattern@, text@),
{
    match regex::Regex::new(pattern) {
        Ok(re) => Some(re.replace_all(text, "").into_owned()),
        Err(_) => None,
    }
}

/// The pattern of the colour and style escape sequences that terminal output
/// carries.
pub open spec fn ansi_pattern() -> Seq<char> {
    "\x1b\\[([0-9]{1,2};[0-9]{1,2}|[0-9]{1,2})?m"@
}

/// Strips colour escape sequences from terminal output, then removes carriage
/// returns and expands tabs.
pub fn remove_ansi_escape_codes(input: &str) -> (r: String)
    ensures
        regex_compiles(ansi_pattern()) ==> r@ == tidied(regex_erased(ansi_pattern(), input@)),
        !regex_compiles(ansi_pattern()) ==> r@ == tidied(input@),
{
    match erase_matches("\x1b\\[([0-9]{1,2};[0-9]{1,2}|[0-9]{1,2})?m", input) {
        Some(t) => tidy_terminal_text(t.as_str()),
        None => tidy_terminal_text(input),
    }
}

/// Whether a path starts with a tilde.
pub open spec fn starts_with_tilde(path: Seq<char>) -> bool {
    path.len() > 0 && path[0] == '~'
}

/// `rest` appended to the directory `dir` the way a path is joined: an
/// absolute `rest` replaces it, and a separator is put between them unless
/// `dir` is empty or already ends with one.
pub open spec fn joined(dir: Seq<char>, rest: Seq<char>) -> Seq<char> {
    if rest.len() > 0 && rest[0] == '/' {
        rest
    } else if dir.len() == 0 || dir.last() == '/' {
        dir + rest
    } else {
        dir.push('/') + rest
    }
}

/// A path with a leading `~/` replaced by `home`, when there is a home.
pub open spec fn expanded(path: Seq<char>, home: Option<Seq<char>>) -> Seq<char> {
    if starts_with_tilde(path) && home is Some {
        joined(home->0, path.skip(if path.len() >= 2 { 2 } else { 1 }))
    } else {
        path
    }
}

/// Relies on dirs' `home_dir`: the user's home directory, when one can be
/// found and is valid text. It depends on the environment.
#[verifier::external_body]
fn home_dir_text() -> (r: Option<String>) {
    dirs::home_dir().and_then(|p| p.to_str().map(String::from))
}

/// Replaces a leading `~/` of `path` by `home`, when there is one.
pub fn expand_tilde_in(path: &str, home: Option<String>) -> (r: String)
    ensures
        r@ == expanded(path@, match home {
            Some(h) => Some(h@),
            None => None,
        }),
{
    let starts = match path.chars().next() {
        Some(c) => c == '~',
        None => false,
    };
    if !starts {
        return path.to_string();
    }
    match home {
        None => path.to_string(),
        Some(h) => {
            let n = path.unicode_len();
            let from: usize = if n >= 2 { 2 } else { 1 };
            let rest = path.substring_char(from, n).to_string();
            let rest_absolute = match rest.as_str().chars().next() {
                Some(c) => c == '/',
                None => false,
            };
            if rest_absolute {
                return rest;
            }
            let hn = h.as_str().unicode_len();
            let mut r = h;
            if hn > 0 && r.as_str().get_char(hn - 1) != '/' {
                push_char(&mut r, '/');
            }
            r.append(rest.as_str());
            r
        },
    }
}

/// Replaces a leading `~/` of `path` by the user's home directory, when it
/// can be found.
pub fn expand_tilde(path: &str) -> (r: String)
    ensures
        !starts_with_tilde(path@) ==> r@ == path@,
        starts_with_tilde(path@) ==> r@ == path@ || exists|h: Seq<char>|
            r@ == #[trigger] expanded(path@, Some(h)),
{
    let home = home_dir_text();
    let ghost h = match &home {
        Some(x) => Some(x@),
        None => None::<Seq<char>>,
    };
    let r = expand_tilde_in(path, home);
    proof {
        if h is Some {
            assert(r@ == expanded(path@, Some(h->0)));
        }
    }
    r
}

} // verus!
