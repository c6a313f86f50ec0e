use crate::fuzzy::{fuzzy_filter, is_filtered_view};
use crate::recent::{push_recent, pushed_recent, RECENT_CAPACITY};
use crate::utils::views;
use vstd::prelude::*;

verus! {

/// Which list owns the highlighted-index cursor.
#[derive(Clone, Copy, PartialEq, Eq, Structural, Debug)]
pub enum Focus {
    Recentfiles,
    Filelist,
    Filestrlist,
}

/// The active top-level mode.
#[derive(Clone, Copy, PartialEq, Eq, Structural, Debug)]
pub enum Context {
    Fileviewer,
    Stringsearch,
    Stringsearchreplace,
    Terminal,
    Help,
}

/// A key press, as the dispatcher sees it.
#[derive(Clone, Copy, PartialEq, Eq, Structural, Debug)]
pub enum Key {
    /// A character typed without modifiers (or with shift).
    Char(char),
    Backspace,
    Enter,
    Esc,
    Tab,
    Up,
    Down,
    /// A character typed with the control key held.
    Ctrl(char),
    Other,
}

/// What the terminal session is asked to do.
pub enum TermRequest {
    /// Write a command line to the shell.
    Write(String),
    /// Send an interrupt (Ctrl-C) to the shell.
    Interrupt,
    /// Kill the shell and start a fresh session.
    Restart,
    /// Show the fixed message that answers an attempt to run the browser
    /// inside itself.
    Joke,
}

/// The outside work that a key press asks of the program running the session.
pub enum Action {
    Nothing,
    /// Repaint the screen.
    Redraw,
    /// Walk the working directory again and hand the new index back.
    Rescan,
    /// Open a file in the configured editor, at a line when one is given;
    /// repaint afterwards.
    OpenEditor(String, Option<String>),
    /// Scan these files for this lower-case term in the background.
    StartSearch(Vec<String>, String),
    /// Replace the first text by the second on the lines that these content
    /// matches designate, and write the files back.
    Replace(Vec<String>, String, String),
    Terminal(TermRequest),
    /// Run this file in the embedded terminal.
    RunInTerminal(String),
    /// Run this file in a new multiplexer pane.
    RunInSplit(String),
    /// Open a new multiplexer pane.
    SplitWindow,
}

/// User configuration: list colours and the editor to open files with.
pub struct VuitRC {
    pub colorscheme: String,
    pub highlight_color: String,
    pub editor: String,
}

impl Default for VuitRC {
    fn default() -> (r: VuitRC)
        ensures
            r.colorscheme@ == "lightblue"@,
            r.highlight_color@ == "blue"@,
            r.editor@ == "vim"@,
    {
        VuitRC {
            colorscheme: "lightblue".to_string(),
            highlight_color: "blue".to_string(),
            editor: "vim".to_string(),
        }
    }
}

/// The whole session state, owned by the dispatcher.
pub struct Vuit {
    pub config: VuitRC,
    pub colorscheme_index: usize,
    pub typed_input: String,
    /// The fuzzy-filtered view of the file index.
    pub file_list: Vec<String>,
    /// Content matches, each `path:line:text`.
    pub file_str_list: Vec<String>,
    pub recent_files: Vec<String>,
    /// The file index.
    pub fd_list: Vec<String>,
    /// The file filter that was active when content search was entered.
    pub current_filter: String,
    /// The search term whose matches a replace acts on.
    pub current_str_filter: String,
    pub search_in_progress: bool,
    pub switch_focus: Focus,
    pub switch_context: Context,
    pub prev_context: Context,
    pub hltd_file: usize,
    pub preview_toggle: bool,
    pub exit: bool,
}

/// The length of the list that `focus` designates.
pub open spec fn list_len(focus: Focus, recent: nat, files: nat, matches: nat) -> nat {
    match focus {
        Focus::Recentfiles => recent,
        Focus::Filelist => files,
        Focus::Filestrlist => matches,
    }
}

/// The focus that Tab moves to: the first non-empty list in a fixed order of
/// preference that depends on the current focus; the focus stays where it is
/// when the preferred lists are empty.
pub open spec fn next_focus(focus: Focus, recent: nat, files: nat, matches: nat) -> Focus {
    match focus {
        Focus::Recentfiles => if files > 0 {
            Focus::Filelist
        } else if matches > 0 {
            Focus::Filestrlist
        } else {
            Focus::Recentfiles
        },
        Focus::Filelist => if matches > 0 {
            Focus::Filestrlist
        } else if recent > 0 {
            Focus::Recentfiles
        } else {
            Focus::Filelist
        },
        Focus::Filestrlist => if recent > 0 {
            Focus::Recentfiles
        } else if files > 0 {
            Focus::Filelist
        } else {
            Focus::Filestrlist
        },
    }
}

/// The highlighted index after a move down in a list of `len` entries.
pub open spec fn moved_down(h: nat, len: nat) -> nat {
    if len == 0 {
        h
    } else if h + 1 >= len {
        (len - 1) as nat
    } else {
        h + 1
    }
}

/// The highlighted index after a move up in a list of `len` entries.
pub open spec fn moved_up(h: nat, len: nat) -> nat {
    if len == 0 || h == 0 {
        h
    } else {
        (h - 1) as nat
    }
}

/// The index brought back into a list of `len` entries.
pub open spec fn clamped(h: nat, len: nat) -> nat {
    if len > 0 && h >= len {
        (len - 1) as nat
    } else {
        h
    }
}

/// The context that toggling help leads to.
pub open spec fn help_toggled(ctx: Context, prev: Context) -> (Context, Context) {
    if ctx == Context::Help {
        (prev, prev)
    } else {
        (Context::Help, ctx)
    }
}

/// A copy of a list of strings.
pub fn clone_list(v: &Vec<String>) -> (r: Vec<String>)
    ensures
        r@ == v@,
{
    let mut r: Vec<String> = Vec::new();
    let n = v.len();
    for i in 0..n
        invariant
            n == v@.len(),
            r@ == v@.take(i as int),
    {
        r.push(v[i].clone());
        proof {
            assert(r@ =~= v@.take(i + 1));
        }
    }
    proof {
        assert(v@.take(n as int) =~= v@);
    }
    r
}

impl Vuit {
    /// The highlighted entry of the focused list (meaningful when that list
    /// is not empty).
    pub open spec fn focused_entry(&self) -> Seq<char> {
        match self.switch_focus {
            Focus::Recentfiles => self.recent_files@[self.hltd_file as int]@,
            Focus::Filelist => self.file_list@[self.hltd_file as int]@,
            Focus::Filestrlist => self.file_str_list@[self.hltd_file as int]@,
        }
    }

    /// The highlighted entry of the focused list, when there is one.
    pub fn highlighted(&self) -> (r: Option<String>)
        requires
            self.wf(),
        ensures
            self.focused_len() == 0 <==> r is None,
            r matches Some(e) ==> e@ == self.focused_entry(),
    {
        match self.switch_focus {
            Focus::Recentfiles => if self.recent_files.len() > 0 {
                Some(self.recent_files[self.hltd_file].clone())
            } else {
                None
            },
            Focus::Filelist => if self.file_list.len() > 0 {
                Some(self.file_list[self.hltd_file].clone())
            } else {
                None
            },
            Focus::Filestrlist => if self.file_str_list.len() > 0 {
                Some(self.file_str_list[self.hltd_file].clone())
            } else {
                None
            },
        }
    }

    /// The number of entries in the list that has the focus.
    pub open spec fn focused_len(&self) -> nat {
        list_len(
            self.switch_focus,
            self.recent_files@.len(),
            self.file_list@.len(),
            self.file_str_list@.len(),
        )
    }

    /// The state's invariant: the cursor lies within a non-empty focused list,
    /// the recent-files list is within capacity and has no repeats, and the
    /// colour scheme index is a valid one.
    pub open spec fn wf(&self) -> bool {
        &&& self.focused_len() > 0 ==> self.hltd_file < self.focused_len()
        &&& self.recent_files@.len() <= RECENT_CAPACITY
        &&& views(self.recent_files@).no_duplicates()
        &&& self.colorscheme_index < crate::ui::COLOR_COUNT
    }

    /// A fresh session with the given configuration.
    pub fn new(config: VuitRC) -> (r: Vuit)
        ensures
            r.wf(),
            r.config == config,
            r.switch_context == Context::Fileviewer,
            r.prev_context == Context::Fileviewer,
            r.switch_focus == Focus::Filelist,
            r.hltd_file == 0,
            r.typed_input@.len() == 0,
            r.fd_list@.len() == 0,
            r.file_list@.len() == 0,
            r.file_str_list@.len() == 0,
            r.recent_files@.len() == 0,
            r.colorscheme_index == 0,
            !r.search_in_progress,
            !r.exit,
    {
        let r = Vuit {
            config,
            colorscheme_index: 0,
            typed_input: String::new(),
            file_list: Vec::new(),
            file_str_list: Vec::new(),
            recent_files: Vec::new(),
            fd_list: Vec::new(),
            current_filter: String::new(),
            current_str_filter: String::new(),
            search_in_progress: false,
            switch_focus: Focus::Filelist,
            switch_context: Context::Fileviewer,
            prev_context: Context::Fileviewer,
            hltd_file: 0,
            preview_toggle: false,
            exit: false,
        };
        proof {
            assert(views(r.recent_files@) =~= Seq::<Seq<char>>::empty());
        }
        r
    }

    /// The number of entries in the focused list.
    pub fn focused_list_len(&self) -> (r: usize)
        ensures
            r == self.focused_len(),
    {
        match self.switch_focus {
            Focus::Recentfiles => self.recent_files.len(),
            Focus::Filelist => self.file_list.len(),
            Focus::Filestrlist => self.file_str_list.len(),
        }
    }

    /// Brings the cursor back into the focused list after that list changed.
    pub fn clamp_highlight(&mut self)
        ensures
            final(self).hltd_file == clamped(old(self).hltd_file as nat, old(self).focused_len()),
            final(self).focused_len() > 0 ==> final(self).hltd_file < final(self).focused_len(),
            *final(self) == (Vuit { hltd_file: final(self).hltd_file, ..*old(self) }),
    {
        let len = self.focused_list_len();
        if self.hltd_file >= len && len > 0 {
            self.hltd_file = len - 1;
        }
    }

    /// Moves the cursor one entry down, stopping at the last entry.
    pub fn move_down(&mut self)
        requires
            old(self).wf(),
        ensures
            final(self).wf(),
            final(self).hltd_file == moved_down(old(self).hltd_file as nat, old(self).focused_len()),
            *final(self) == (Vuit { hltd_file: final(self).hltd_file, ..*old(self) }),
    {
        let len = self.focused_list_len();
        if len == 0 {
            return;
        }
        if self.hltd_file + 1 >= len {
            self.hltd_file = len - 1;
        } else {
            self.hltd_file = self.hltd_file + 1;
        }
    }

    /// Moves the cursor one entry up, stopping at the first entry.
    pub fn move_up(&mut self)
        requires
            old(self).wf(),
        ensures
            final(self).wf(),
            final(self).hltd_file == moved_up(old(self).hltd_file as nat, old(self).focused_len()),
            *final(self) == (Vuit { hltd_file: final(self).hltd_file, ..*old(self) }),
    {
        let len = self.focused_list_len();
        if len == 0 || self.hltd_file == 0 {
            return;
        }
        self.hltd_file = self.hltd_file - 1;
    }

    /// Moves the focus to the next non-empty list and puts the cursor on its
    /// first entry.
    pub fn cycle_focus(&mut self)
        requires
            old(self).wf(),
        ensures
            final(self).wf(),
            final(self).switch_focus == next_focus(
                old(self).switch_focus,
                old(self).recent_files@.len(),
                old(self).file_list@.len(),
                old(self).file_str_list@.len(),
            ),
            final(self).hltd_file == 0,
            *final(self) == (Vuit {
                switch_focus: final(self).switch_focus,
                hltd_file: 0,
                ..*old(self)
            }),
    {
        let recent = self.recent_files.len();
        let files = self.file_list.len();
        let matches = self.file_str_list.len();
        self.switch_focus = match self.switch_focus {
            Focus::Recentfiles => if files > 0 {
                Focus::Filelist
            } else if matches > 0 {
                Focus::Filestrlist
            } else {
                Focus::Recentfiles
            },
            Focus::Filelist => if matches > 0 {
                Focus::Filestrlist
            } else if recent > 0 {
                Focus::Recentfiles
            } else {
                Focus::Filelist
            },
            Focus::Filestrlist => if recent > 0 {
                Focus::Recentfiles
            } else if files > 0 {
                Focus::Filelist
            } else {
                Focus::Filestrlist
            },
        };
        self.hltd_file = 0;
    }

    /// Opens help, or closes it and returns to the context it was opened from.
    pub fn toggle_help(&mut self)
        ensures
            (final(self).switch_context, final(self).prev_context) == help_toggled(
                old(self).switch_context,
                old(self).prev_context,
            ),
            *final(self) == (Vuit {
                switch_context: final(self).switch_context,
                prev_context: final(self).prev_context,
                ..*old(self)
            }),
    {
        if self.switch_context == Context::Help {
            self.switch_context = self.prev_context;
        } else {
            self.prev_context = self.switch_context;
            self.switch_context = Context::Help;
        }
    }

    /// Records an opened path in the recent-files list.
    pub fn remember_opened(&mut self, path: String)
        requires
            old(self).wf(),
        ensures
            final(self).wf(),
            views(final(self).recent_files@) == pushed_recent(
                views(old(self).recent_files@),
                path@,
            ),
            *final(self) == (Vuit { recent_files: final(self).recent_files, hltd_file: final(self).hltd_file, ..*old(self) }),
            final(self).hltd_file == clamped(old(self).hltd_file as nat, final(self).focused_len()),
    {
        push_recent(&mut self.recent_files, path);
        self.clamp_highlight();
    }

    /// Removes the highlighted entry from the recent-files list, when that
    /// list has the focus and is not empty; the cursor returns to the top.
    pub fn remove_recent(&mut self)
        requires
            old(self).wf(),
        ensures
            final(self).wf(),
            (old(self).switch_focus == Focus::Recentfiles && old(self).recent_files@.len() > 0) ==> {
                &&& final(self).recent_files@ == old(self).recent_files@.remove(
                    old(self).hltd_file as int,
                )
                &&& *final(self) == (Vuit { recent_files: final(self).recent_files, hltd_file: 0, ..*old(self) })
            },
            !(old(self).switch_focus == Focus::Recentfiles && old(self).recent_files@.len() > 0)
                ==> *final(self) == *old(self),
    {
        if self.switch_focus == Focus::Recentfiles && self.recent_files.len() > 0 {
            let ghost before = self.recent_files@;
            self.recent_files.remove(self.hltd_file);
            self.hltd_file = 0;
            proof {
                let i = old(self).hltd_file as int;
                assert(views(self.recent_files@) =~= views(before).remove(i));
                assert forall|a: int, b: int|
                    0 <= a < b < views(self.recent_files@).len() implies views(self.recent_files@)[a]
                    != views(self.recent_files@)[b] by {
                    let a0 = if a < i { a } else { a + 1 };
                    let b0 = if b < i { b } else { b + 1 };
                    assert(views(before)[a0] != views(before)[b0]);
                }
            }
        }
    }

    /// Re-runs the fuzzy filter of the index against the typed input and
    /// brings the cursor back into the focused list.
    pub fn refilter(&mut self)
        requires
            old(self).wf(),
        ensures
            final(self).wf(),
            is_filtered_view(views(old(self).fd_list@), old(self).typed_input@, views(final(self).file_list@)),
            final(self).hltd_file == clamped(old(self).hltd_file as nat, final(self).focused_len()),
            *final(self) == (Vuit { file_list: final(self).file_list, hltd_file: final(self).hltd_file, ..*old(self) }),
    {
        self.file_list = fuzzy_filter(&self.fd_list, self.typed_input.as_str());
        self.clamp_highlight();
    }
}

} // verus!
