use crate::fileviewer;
use crate::fuzzy::is_filtered_view;
use crate::state::{clamped, Action, Context, Focus, Key, Vuit};
use crate::stringsearch;
use crate::stringsearchreplace;
use crate::terminal;
use crate::utils::views;
use vstd::prelude::*;

verus! {

/// How many preview lines fit beside the lists.
pub const PREVIEW_NUM_LINES: usize = 50;

/// How many lines the terminal pane takes from the preview when it is open.
pub const TERMINAL_NUM_LINES: usize = 20;

/// Routes a key press to the handler of the active context (help uses the
/// file browser's); `in_tmux` tells whether the program runs inside a
/// terminal multiplexer.
pub fn dispatch_event(app: &mut Vuit, key: Key, in_tmux: bool) -> (r: Action)
    requires
        old(app).wf(),
    ensures
        final(app).wf(),
        match old(app).switch_context {
            Context::Fileviewer | Context::Help => fileviewer::key_handled(
                *old(app),
                *final(app),
                key,
                in_tmux,
                r,
            ),
            Context::Stringsearch => stringsearch::key_handled(*old(app), *final(app), key, r),
            Context::Stringsearchreplace => stringsearchreplace::key_handled(
                *old(app),
                *final(app),
                key,
                in_tmux,
                r,
            ),
            Context::Terminal => terminal::key_handled(*old(app), *final(app), key, r),
        },
{
    match app.switch_context {
        Context::Fileviewer | Context::Help => fileviewer::handler(app, key, in_tmux),
        Context::Stringsearch => stringsearch::handler(app, key),
        Context::Stringsearchreplace => stringsearchreplace::handler(app, key, in_tmux),
        Context::Terminal => terminal::handler(app, key),
    }
}

impl Vuit {
    /// Whether the running search has scanned every file, given how many it
    /// has scanned so far; its result may then be collected.
    pub fn search_ready(&self, scanned: usize) -> (r: bool)
        ensures
            r == (self.search_in_progress && scanned == self.file_list@.len()),
    {
        self.search_in_progress && scanned == self.file_list.len()
    }

    /// Installs the matches of the search that just finished; the search is
    /// then no longer running, so its result cannot be collected twice.
    pub fn finish_search(&mut self, matches: Vec<String>)
        requires
            old(self).wf(),
            old(self).search_in_progress,
        ensures
            final(self).wf(),
            !final(self).search_in_progress,
            final(self).file_str_list@ == matches@,
            final(self).hltd_file == clamped(old(self).hltd_file as nat, final(self).focused_len()),
            *final(self) == (Vuit {
                file_str_list: final(self).file_str_list,
                search_in_progress: false,
                hltd_file: final(self).hltd_file,
                ..*old(self)
            }),
    {
        self.file_str_list = matches;
        self.search_in_progress = false;
        self.clamp_highlight();
    }

    /// Replaces the file index wholesale and filters it against the typed
    /// input.
    pub fn set_index(&mut self, files: Vec<String>)
        requires
            old(self).wf(),
        ensures
            final(self).wf(),
            final(self).fd_list@ == files@,
            is_filtered_view(views(files@), old(self).typed_input@, views(final(self).file_list@)),
            final(self).hltd_file == clamped(old(self).hltd_file as nat, final(self).focused_len()),
            *final(self) == (Vuit {
                fd_list: final(self).fd_list,
                file_list: final(self).file_list,
                hltd_file: final(self).hltd_file,
                ..*old(self)
            }),
    {
        self.fd_list = files;
        self.refilter();
    }

    /// The file to preview: the highlighted entry of the recent files or the
    /// file list; content matches have no preview.
    pub fn preview_target(&self) -> (r: Option<String>)
        requires
            self.wf(),
        ensures
            (self.focused_len() == 0 || self.switch_focus == Focus::Filestrlist) <==> r is None,
            r matches Some(p) ==> p@ == self.focused_entry(),
    {
        if self.switch_focus == Focus::Filestrlist {
            None
        } else {
            self.highlighted()
        }
    }

    /// How many lines of the previewed file to show: fewer while the
    /// terminal or help pane is open.
    pub fn preview_line_count(&self) -> (r: usize)
        ensures
            (self.switch_context == Context::Terminal || self.switch_context == Context::Help) ==> r
                == PREVIEW_NUM_LINES - TERMINAL_NUM_LINES,
            !(self.switch_context == Context::Terminal || self.switch_context == Context::Help) ==> r
                == PREVIEW_NUM_LINES,
    {
        if self.switch_context == Context::Terminal || self.switch_context == Context::Help {
            PREVIEW_NUM_LINES - TERMINAL_NUM_LINES
        } else {
            PREVIEW_NUM_LINES
        }
    }
}

} // verus!
