use crate::state::Vuit;
use crate::utils::views;
use vstd::prelude::*;

verus! {

/// The number of colour schemes that the scheme command cycles through.
pub const COLOR_COUNT: usize = 10;

/// The name of colour scheme `i`.
pub open spec fn color_name(i: int) -> Seq<char> {
    if i == 0 {
        "lightblue"@
    } else if i == 1 {
        "cyan"@
    } else if i == 2 {
        "lightgreen"@
    } else if i == 3 {
        "yellow"@
    } else if i == 4 {
        "lightred"@
    } else if i == 5 {
        "green"@
    } else if i == 6 {
        "lightcyan"@
    } else if i == 7 {
        "blue"@
    } else if i == 8 {
        "lightyellow"@
    } else {
        "red"@
    }
}

fn color_name_text(i: usize) -> (r: String)
    requires
        i < COLOR_COUNT,
    ensures
        r@ == color_name(i as int),
{
    match i {
        0 => "lightblue".to_string(),
        1 => "cyan".to_string(),
        2 => "lightgreen".to_string(),
        3 => "yellow".to_string(),
        4 => "lightred".to_string(),
        5 => "green".to_string(),
        6 => "lightcyan".to_string(),
        7 => "blue".to_string(),
        8 => "lightyellow".to_string(),
        _ => "red".to_string(),
    }
}

/// A colour setting: scheme index, list colour name and highlight colour name.
pub type SchemeState = (nat, Seq<char>, Seq<char>);

/// One step of the scheme command: the next index, its colour for the lists
/// and the one after it for the highlight.
pub open spec fn scheme_step(s: SchemeState) -> SchemeState {
    let i = (s.0 + 1) % (COLOR_COUNT as nat);
    (i, color_name(i as int), color_name(((i + 1) % (COLOR_COUNT as nat)) as int))
}

/// The colour setting after `n` steps of the scheme command.
pub open spec fn scheme_steps(s: SchemeState, n: nat) -> SchemeState
    decreases n,
{
    if n == 0 {
        s
    } else {
        scheme_step(scheme_steps(s, (n - 1) as nat))
    }
}

proof fn lemma_scheme_steps_index(s: SchemeState, n: nat)
    requires
        s.0 < COLOR_COUNT,
        n >= 1,
    ensures
        scheme_steps(s, n).0 == (s.0 + n) % (COLOR_COUNT as nat),
        scheme_steps(s, n).1 == color_name(scheme_steps(s, n).0 as int),
        scheme_steps(s, n).2 == color_name(((scheme_steps(s, n).0 + 1) % (COLOR_COUNT as nat)) as int),
    decreases n,
{
    if n > 1 {
        lemma_scheme_steps_index(s, (n - 1) as nat);
        vstd::arithmetic::div_mod::lemma_add_mod_noop((s.0 + n - 1) as int, 1, COLOR_COUNT as int);
    } else {
        assert(scheme_steps(s, 0) == s);
    }
}

/// Advancing the colour scheme as many times as there are schemes brings
/// the scheme index back to where it was; a setting that some advance
/// produced comes back whole, names included.
pub proof fn lemma_color_cycle_returns(s: SchemeState)
    requires
        s.0 < COLOR_COUNT,
    ensures
        scheme_steps(s, COLOR_COUNT as nat).0 == s.0,
        (s.1 == color_name(s.0 as int) && s.2 == color_name(((s.0 + 1) % (COLOR_COUNT as nat)) as int))
            ==> scheme_steps(s, COLOR_COUNT as nat) == s,
{
    lemma_scheme_steps_index(s, COLOR_COUNT as nat);
}

/// Moves to the next colour scheme: the lists take its colour, and the
/// highlight the colour of the scheme after it.
pub fn next_colorscheme(app: &mut Vuit)
    requires
        old(app).wf(),
    ensures
        final(app).wf(),
        (final(app).colorscheme_index as nat, final(app).config.colorscheme@, final(app).config.highlight_color@)
            == scheme_step((old(app).colorscheme_index as nat, old(app).config.colorscheme@, old(app).config.highlight_color@)),
        final(app).config.editor == old(app).config.editor,
        *final(app) == (Vuit { colorscheme_index: final(app).colorscheme_index, config: final(app).config, ..*old(app) }),
{
    let i = (app.colorscheme_index + 1) % COLOR_COUNT;
    app.colorscheme_index = i;
    app.config.colorscheme = color_name_text(i);
    app.config.highlight_color = color_name_text((i + 1) % COLOR_COUNT);
}

/// The lines of the help menu.
pub open spec fn help_lines() -> Seq<Seq<char>> {
    seq![
        "(General Commands)"@,
        "<C-t> - Toggle terminal window"@,
        "<C-h> - Toggle help menu window"@,
        "<C-r> - Rescan CWD for updates"@,
        "Esc   - Exit Vuit"@,
        ""@,
        "(File List Focus Commands)"@,
        "Up/Down, Ctrl-j/Ctrl-k - Navigate the file list"@,
        "Enter - Open selected file"@,
        "Tab   - Switch between recent and file windows"@,
        ""@,
        "(Terminal Focus Commands)"@,
        "<C-t> - Switches focus back to the file list, but terminal session is preserved"@,
        "quit, exit - Switches focus back to the file list and restarts the terminal instance"@,
        "restart - If terminal seems unresponsive, this will restart the session"@,
    ]
}

/// The help menu, one entry per line.
pub fn build_help_text() -> (r: Vec<String>)
    ensures
        views(r@) == help_lines(),
{
    let r = vec![
        "(General Commands)".to_string(),
        "<C-t> - Toggle terminal window".to_string(),
        "<C-h> - Toggle help menu window".to_string(),
        "<C-r> - Rescan CWD for updates".to_string(),
        "Esc   - Exit Vuit".to_string(),
        "".to_string(),
        "(File List Focus Commands)".to_string(),
        "Up/Down, Ctrl-j/Ctrl-k - Navigate the file list".to_string(),
        "Enter - Open selected file".to_string(),
        "Tab   - Switch between recent and file windows".to_string(),
        "".to_string(),
        "(Terminal Focus Commands)".to_string(),
        "<C-t> - Switches focus back to the file list, but terminal session is preserved".to_string(),
        "quit, exit - Switches focus back to the file list and restarts the terminal instance".to_string(),
        "restart - If terminal seems unresponsive, this will restart the session".to_string(),
    ];
    proof {
        assert(views(r@) =~= help_lines());
    }
    r
}

} // verus!
