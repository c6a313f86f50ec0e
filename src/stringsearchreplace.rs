use crate::fuzzy::is_filtered_view;
use crate::recent::pushed_recent;
use crate::replace::path_part;
use crate::state::{clone_list, help_toggled, moved_down, moved_up, next_focus, Action, Context, Focus, Key, Vuit};
use crate::stringsearch::{open_match, selecting_match};
use crate::ui::{next_colorscheme, scheme_step};
use crate::utils::{pop_char, push_char, views};
use vstd::prelude::*;

verus! {

/// What a key press does to the state in this context, and what it asks for.
pub open spec fn key_handled(old: Vuit, new: Vuit, key: Key, in_tmux: bool, r: Action) -> bool {
    match key {
        Key::Char(c) => r is Nothing && new.typed_input@ == old.typed_input@.push(c)
            && new == (Vuit { typed_input: new.typed_input, ..old }),
        Key::Backspace => r is Nothing && new.typed_input@ == (if old.typed_input@.len() > 0 {
            old.typed_input@.drop_last()
        } else {
            old.typed_input@
        }) && new == (Vuit { typed_input: new.typed_input, ..old }),
        Key::Enter => if selecting_match(old) {
            r is OpenEditor && views(new.recent_files@) == pushed_recent(
                views(old.recent_files@),
                path_part(old.file_str_list@[old.hltd_file as int]@),
            ) && new == (Vuit { recent_files: new.recent_files, ..old })
        } else if old.current_str_filter@.len() == 0 {
            r is Nothing && new == old
        } else {
            &&& r matches Action::Replace(entries, filter, replacement) && entries@
                == old.file_str_list@ && filter == old.current_str_filter
                && replacement == old.typed_input
            &&& new.file_str_list@.len() == 0 && new.typed_input@.len() == 0
            &&& new == (Vuit {
                file_str_list: new.file_str_list,
                typed_input: new.typed_input,
                ..old
            })
        },
        Key::Esc => r is Nothing && new == (Vuit { exit: true, ..old }),
        Key::Ctrl('t') => if in_tmux {
            r is SplitWindow && new == old
        } else {
            r is Nothing && new == old
        },
        Key::Ctrl('p') => r is Nothing && new == (Vuit {
            preview_toggle: !old.preview_toggle,
            ..old
        }),
        Key::Ctrl('j') | Key::Down => r is Nothing && new == (Vuit {
            hltd_file: moved_down(old.hltd_file as nat, old.focused_len()) as usize,
            ..old
        }),
        Key::Ctrl('k') | Key::Up => r is Nothing && new == (Vuit {
            hltd_file: moved_up(old.hltd_file as nat, old.focused_len()) as usize,
            ..old
        }),
        Key::Tab => r is Nothing && new == (Vuit {
            switch_focus: next_focus(
                old.switch_focus,
                old.recent_files@.len(),
                old.file_list@.len(),
                old.file_str_list@.len(),
            ),
            hltd_file: 0,
            ..old
        }),
        Key::Ctrl('r') => r is Nothing && new.current_str_filter@.len() == 0
            && new.typed_input@.len() == 0 && new == (Vuit {
            current_str_filter: new.current_str_filter,
            typed_input: new.typed_input,
            switch_context: Context::Stringsearch,
            ..old
        }),
        Key::Ctrl('n') => r is Redraw && (
            new.colorscheme_index as nat,
            new.config.colorscheme@,
            new.config.highlight_color@,
        ) == scheme_step(
            (
                old.colorscheme_index as nat,
                old.config.colorscheme@,
                old.config.highlight_color@,
            ),
        ) && new == (Vuit {
            colorscheme_index: new.colorscheme_index,
            config: new.config,
            ..old
        }),
        Key::Ctrl('f') => r is Nothing && new.typed_input@.len() == 0
            && new.file_str_list@.len() == 0 && new.current_str_filter@.len() == 0
            && is_filtered_view(views(old.fd_list@), Seq::empty(), views(new.file_list@))
            && new == (Vuit {
            typed_input: new.typed_input,
            file_str_list: new.file_str_list,
            current_str_filter: new.current_str_filter,
            file_list: new.file_list,
            hltd_file: new.hltd_file,
            prev_context: old.switch_context,
            switch_context: Context::Fileviewer,
            ..old
        }),
        Key::Ctrl('x') => r is Nothing && if old.switch_focus == Focus::Recentfiles
            && old.recent_files@.len() > 0 {
            new.recent_files@ == old.recent_files@.remove(old.hltd_file as int)
                && new == (Vuit {
                recent_files: new.recent_files,
                hltd_file: 0,
                ..old
            })
        } else {
            new == old
        },
        Key::Ctrl('h') => r is Nothing && (new.switch_context, new.prev_context)
            == help_toggled(old.switch_context, old.prev_context) && new == (
        Vuit {
            switch_context: new.switch_context,
            prev_context: new.prev_context,
            ..old
        }),
        _ => r is Nothing && new == old,
    }
}

/// Handles a key press in search-and-replace. Enter opens the highlighted
/// match or, when none is highlighted, asks for every held match's line to
/// have the search term replaced by the typed text, then drops the matches;
/// Ctrl-r returns to content search.
pub fn handler(app: &mut Vuit, key: Key, in_tmux: bool) -> (r: Action)
    requires
        old(app).wf(),
    ensures
        final(app).wf(),
        key_handled(*old(app), *final(app), key, in_tmux, r),
{
    match key {
        Key::Char(c) => {
            push_char(&mut app.typed_input, c);
            Action::Nothing
        },
        Key::Backspace => {
            pop_char(&mut app.typed_input);
            Action::Nothing
        },
        Key::Enter => {
            if app.switch_focus == Focus::Filestrlist && app.file_str_list.len() > 0 {
                open_match(app)
            } else if app.current_str_filter.as_str().unicode_len() == 0 {
                Action::Nothing
            } else {
                let entries = clone_list(&app.file_str_list);
                let replacement = app.typed_input.clone();
                app.file_str_list = Vec::new();
                app.typed_input = String::new();
                Action::Replace(entries, app.current_str_filter.clone(), replacement)
            }
        },
        Key::Esc => {
            app.exit = true;
            Action::Nothing
        },
        Key::Ctrl('t') => if in_tmux {
            Action::SplitWindow
        } else {
            Action::Nothing
        },
        Key::Ctrl('p') => {
            app.preview_toggle = !app.preview_toggle;
            Action::Nothing
        },
        Key::Ctrl('j') | Key::Down => {
            app.move_down();
            Action::Nothing
        },
        Key::Ctrl('k') | Key::Up => {
            app.move_up();
            Action::Nothing
        },
        Key::Tab => {
            app.cycle_focus();
            Action::Nothing
        },
        Key::Ctrl('r') => {
            app.current_str_filter = String::new();
            app.typed_input = String::new();
            app.switch_context = Context::Stringsearch;
            Action::Nothing
        },
        Key::Ctrl('n') => {
            next_colorscheme(app);
            Action::Redraw
        },
        Key::Ctrl('f') => {
            app.typed_input = String::new();
            app.file_str_list = Vec::new();
            app.current_str_filter = String::new();
            app.prev_context = app.switch_context;
            app.switch_context = Context::Fileviewer;
            app.clamp_highlight();
            app.refilter();
            Action::Nothing
        },
        Key::Ctrl('x') => {
            app.remove_recent();
            Action::Nothing
        },
        Key::Ctrl('h') => {
            app.toggle_help();
            Action::Nothing
        },
        _ => Action::Nothing,
    }
}

} // verus!
