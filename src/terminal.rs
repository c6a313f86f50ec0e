use crate::replace::{join_lines, joined_lines};
use crate::state::{Action, Context, Key, TermRequest, Vuit};
use crate::ui::next_colorscheme;
use crate::utils::{pop_char, push_char, same_text, views};
use vstd::prelude::*;

verus! {

/// `s` without its leading semicolons.
pub open spec fn semicolons_stripped(s: Seq<char>) -> Seq<char>
    decreases s.len(),
{
    if s.len() > 0 && s[0] == ';' {
        semicolons_stripped(s.drop_first())
    } else {
        s
    }
}

proof fn lemma_strip_prefix(s: Seq<char>, k: int)
    requires
        0 <= k <= s.len(),
        forall|j: int| 0 <= j < k ==> s[j] == ';',
        k == s.len() || s[k] != ';',
    ensures
        semicolons_stripped(s) == s.skip(k),
    decreases k,
{
    if k > 0 {
        lemma_strip_prefix(s.drop_first(), k - 1);
        assert(s.drop_first().skip(k - 1) =~= s.skip(k));
    } else {
        assert(s.skip(0) =~= s);
    }
}

/// How a typed terminal command is handled.
pub enum TermCommand {
    /// The browser's own name: answered with a fixed message.
    Joke,
    /// `exit` or `quit`: restart the shell and leave the terminal.
    Leave,
    /// `restart` or `clear`: restart the shell.
    Restart,
    /// Anything else goes to the shell.
    Forward(String),
}

/// The handling of a command, once its leading semicolons are stripped.
pub open spec fn command_kind(c: Seq<char>) -> int {
    if c == "vuit"@ {
        0
    } else if c == "exit"@ || c == "quit"@ {
        1
    } else if c == "restart"@ || c == "clear"@ {
        2
    } else {
        3
    }
}

/// Strips leading semicolons from a typed command and tells the reserved
/// words apart from what goes to the shell.
pub fn classify_command(input: &str) -> (r: TermCommand)
    ensures
        command_kind(semicolons_stripped(input@)) == 0 <==> r is Joke,
        command_kind(semicolons_stripped(input@)) == 1 <==> r is Leave,
        command_kind(semicolons_stripped(input@)) == 2 <==> r is Restart,
        r matches TermCommand::Forward(c) ==> c@ == semicolons_stripped(input@)
            && command_kind(c@) == 3,
{
    let n = input.unicode_len();
    let mut k: usize = 0;
    while k < n && input.get_char(k) == ';'
        invariant
            n == input@.len(),
            k <= n,
            forall|j: int| 0 <= j < k ==> input@[j] == ';',
        decreases n - k,
    {
        k = k + 1;
    }
    proof {
        lemma_strip_prefix(input@, k as int);
    }
    let command = input.substring_char(k, n);
    if same_text(command, "vuit") {
        TermCommand::Joke
    } else if same_text(command, "exit") || same_text(command, "quit") {
        TermCommand::Leave
    } else if same_text(command, "restart") || same_text(command, "clear") {
        TermCommand::Restart
    } else {
        TermCommand::Forward(command.to_string())
    }
}

/// Handles the typed command: reserved words act locally (`exit` and `quit`
/// also leave the terminal for the file browser); anything else is written
/// to the shell.
pub fn send_cmd_to_proc_term(app: &mut Vuit) -> (r: TermRequest)
    requires
        old(app).wf(),
    ensures
        final(app).wf(),
        ({
            let kind = command_kind(semicolons_stripped(old(app).typed_input@));
            &&& kind == 0 ==> r is Joke && *final(app) == *old(app)
            &&& kind == 1 ==> r is Restart && *final(app) == (Vuit {
                switch_context: Context::Fileviewer,
                prev_context: Context::Terminal,
                ..*old(app)
            })
            &&& kind == 2 ==> r is Restart && *final(app) == *old(app)
            &&& kind == 3 ==> (r matches TermRequest::Write(c) && c@ == semicolons_stripped(
                old(app).typed_input@,
            )) && *final(app) == *old(app)
        }),
{
    match classify_command(app.typed_input.as_str()) {
        TermCommand::Joke => TermRequest::Joke,
        TermCommand::Leave => {
            app.switch_context = Context::Fileviewer;
            app.prev_context = Context::Terminal;
            TermRequest::Restart
        },
        TermCommand::Restart => TermRequest::Restart,
        TermCommand::Forward(c) => TermRequest::Write(c),
    }
}

/// The generation that follows `g` when a session restarts.
pub open spec fn next_generation(g: u64) -> u64 {
    if g == u64::MAX {
        0
    } else {
        (g + 1) as u64
    }
}

/// The lines after a reader of generation `tag` delivers `line` to a buffer
/// of generation `generation`: only the current session's lines are kept.
pub open spec fn after_delivery(generation: u64, lines: Seq<Seq<char>>, tag: u64, line: Seq<char>) -> Seq<
    Seq<char>,
> {
    if tag == generation {
        lines.push(line)
    } else {
        lines
    }
}

/// The shared output buffer of the terminal session. Each session has a
/// generation; a reader hands in each line with the generation of the
/// session it reads from, and a restart moves to a new generation with an
/// empty buffer, so output of the old session never reaches the new one.
pub struct TermOutput {
    pub generation: u64,
    pub lines: Vec<String>,
}

impl TermOutput {
    /// An empty buffer of the first generation.
    pub fn new() -> (r: TermOutput)
        ensures
            r.generation == 0,
            r.lines@.len() == 0,
    {
        TermOutput { generation: 0, lines: Vec::new() }
    }

    /// The generation of the current session.
    pub fn generation(&self) -> (r: u64)
        ensures
            r == self.generation,
    {
        self.generation
    }

    /// Appends a line that a reader of generation `tag` read; a line of an
    /// earlier session is dropped.
    pub fn push_line(&mut self, tag: u64, line: String)
        ensures
            final(self).generation == old(self).generation,
            views(final(self).lines@) == after_delivery(
                old(self).generation,
                views(old(self).lines@),
                tag,
                line@,
            ),
    {
        if tag == self.generation {
            self.lines.push(line);
            proof {
                assert(views(self.lines@) =~= views(old(self).lines@).push(line@));
            }
        }
    }

    /// Empties the buffer, keeping the session.
    pub fn clear(&mut self)
        ensures
            final(self).generation == old(self).generation,
            final(self).lines@.len() == 0,
    {
        self.lines = Vec::new();
    }

    /// Moves to the next session: a new generation and an empty buffer.
    pub fn restart(&mut self)
        ensures
            final(self).generation == next_generation(old(self).generation),
            final(self).lines@.len() == 0,
    {
        self.generation = if self.generation == u64::MAX {
            0
        } else {
            self.generation + 1
        };
        self.lines = Vec::new();
    }

    /// The buffered output as one text, lines separated by newlines.
    pub fn snapshot(&self) -> (r: String)
        ensures
            r@ == joined_lines(views(self.lines@)),
    {
        join_lines(&self.lines)
    }
}

/// After a restart, a line that the old session's reader still delivers
/// leaves the new session's buffer as it is.
pub proof fn lemma_restart_drops_stale_output(generation: u64, line: Seq<char>)
    ensures
        after_delivery(next_generation(generation), Seq::empty(), generation, line) == Seq::<
            Seq<char>,
        >::empty(),
{
}

/// What a key press does to the state in this context, and what it asks for.
pub open spec fn key_handled(old: Vuit, new: Vuit, key: Key, r: Action) -> bool {
    match key {
        Key::Char(c) => r is Nothing && new.typed_input@ == old.typed_input@.push(c)
            && new == (Vuit { typed_input: new.typed_input, ..old }),
        Key::Backspace => r is Nothing && new.typed_input@ == (if old.typed_input@.len() > 0 {
            old.typed_input@.drop_last()
        } else {
            old.typed_input@
        }) && new == (Vuit { typed_input: new.typed_input, ..old }),
        Key::Enter => r is Terminal && new.typed_input@.len() == 0 && ({
            let kind = command_kind(semicolons_stripped(old.typed_input@));
            &&& kind == 0 ==> r->Terminal_0 is Joke
            &&& kind == 1 ==> r->Terminal_0 is Restart && new.switch_context
                == Context::Fileviewer && new.prev_context == Context::Terminal
            &&& kind == 2 ==> r->Terminal_0 is Restart
            &&& kind == 3 ==> (r->Terminal_0 matches TermRequest::Write(c) && c@
                == semicolons_stripped(old.typed_input@))
            &&& kind != 1 ==> new.switch_context == old.switch_context
                && new.prev_context == old.prev_context
            &&& new == (Vuit {
                typed_input: new.typed_input,
                switch_context: new.switch_context,
                prev_context: new.prev_context,
                ..old
            })
        }),
        Key::Esc => r is Nothing && new == (Vuit { exit: true, ..old }),
        Key::Ctrl('p') => r is Nothing && new == (Vuit {
            preview_toggle: !old.preview_toggle,
            ..old
        }),
        Key::Ctrl('r') => r is Rescan && new == old,
        Key::Ctrl('n') => r is Redraw && new.colorscheme_index == (
        old.colorscheme_index + 1) % (crate::ui::COLOR_COUNT as int),
        Key::Ctrl('t') => r is Nothing && new == (Vuit {
            switch_context: Context::Fileviewer,
            prev_context: old.switch_context,
            ..old
        }),
        Key::Ctrl('c') => r matches Action::Terminal(TermRequest::Interrupt) && new
            == old,
        Key::Ctrl('h') => r is Nothing && (new.switch_context, new.prev_context)
            == crate::state::help_toggled(old.switch_context, old.prev_context)
            && new == (Vuit {
            switch_context: new.switch_context,
            prev_context: new.prev_context,
            ..old
        }),
        _ => r is Nothing && new == old,
    }
}

/// Handles a key press in the terminal context.
pub fn handler(app: &mut Vuit, key: Key) -> (r: Action)
    requires
        old(app).wf(),
    ensures
        final(app).wf(),
        key_handled(*old(app), *final(app), key, r),
{
    match key {
        Key::Char(c) => {
            push_char(&mut app.typed_input, c);
            Action::Nothing
        },
        Key::Backspace => {
            pop_char(&mut app.typed_input);
            Action::Nothing
        },
        Key::Enter => {
            let request = send_cmd_to_proc_term(app);
            app.typed_input = String::new();
            Action::Terminal(request)
        },
        Key::Esc => {
            app.exit = true;
            Action::Nothing
        },
        Key::Ctrl('p') => {
            app.preview_toggle = !app.preview_toggle;
            Action::Nothing
        },
        Key::Ctrl('r') => Action::Rescan,
        Key::Ctrl('n') => {
            next_colorscheme(app);
            Action::Redraw
        },
        Key::Ctrl('t') => {
            app.prev_context = app.switch_context;
            app.switch_context = Context::Fileviewer;
            Action::Nothing
        },
        Key::Ctrl('c') => Action::Terminal(TermRequest::Interrupt),
        Key::Ctrl('h') => {
            app.toggle_help();
            Action::Nothing
        },
        _ => Action::Nothing,
    }
}

} // verus!
