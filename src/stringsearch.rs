use crate::fuzzy::is_filtered_view;
use crate::recent::pushed_recent;
use crate::replace::{entry_line, entry_path, line_part, path_part};
use crate::state::{
    clone_list, help_toggled, moved_down, moved_up, next_focus, Action, Context, Focus,
    Key, Vuit,
};
use crate::ui::{next_colorscheme, scheme_step};
use crate::utils::{lower_of, pop_char, push_char, same_text, to_lower, views};
use vstd::prelude::*;

verus! {

/// A content match is highlighted: opening it is what Enter does.
pub open spec fn selecting_match(app: Vuit) -> bool {
    app.switch_focus == Focus::Filestrlist && app.file_str_list@.len() > 0
}

/// Opens the highlighted content match in the editor, at its line when the
/// editor is vim, and records its file as recently opened.
pub fn open_match(app: &mut Vuit) -> (r: Action)
    requires
        old(app).wf(),
        selecting_match(*old(app)),
    ensures
        final(app).wf(),
        ({
            let entry = old(app).file_str_list@[old(app).hltd_file as int]@;
            &&& r matches Action::OpenEditor(p, line) && p@ == path_part(entry) && (if old(app).config.editor@ == "vim"@ {
                line matches Some(l) && l@ == line_part(entry)
            } else {
                line is None
            })
            &&& views(final(app).recent_files@) == pushed_recent(
                views(old(app).recent_files@),
                path_part(entry),
            )
            &&& *final(app) == (Vuit { recent_files: final(app).recent_files, ..*old(app) })
        }),
{
    let entry = app.file_str_list[app.hltd_file].clone();
    let path = entry_path(entry.as_str());
    app.remember_opened(path.clone());
    let line = if same_text(app.config.editor.as_str(), "vim") {
        Some(entry_line(entry.as_str()))
    } else {
        None
    };
    Action::OpenEditor(path, line)
}

/// What a key press does to the state in this context, and what it asks for.
pub open spec fn key_handled(old: Vuit, new: Vuit, key: Key, r: Action) -> bool {
    match key {
        Key::Char(c) => r is Nothing && new.typed_input@ == old.typed_input@.push(c)
            && new == (Vuit { typed_input: new.typed_input, ..old }),
        Key::Backspace => r is Nothing && new.typed_input@ == (if old.typed_input@.len() > 0 {
            old.typed_input@.drop_last()
        } else {
            old.typed_input@
        }) && new == (Vuit { typed_input: new.typed_input, ..old }),
        Key::Enter => if selecting_match(old) {
            r is OpenEditor && views(new.recent_files@) == pushed_recent(
                views(old.recent_files@),
                path_part(old.file_str_list@[old.hltd_file as int]@),
            ) && new == (Vuit { recent_files: new.recent_files, ..old })
        } else if old.search_in_progress {
            r is Nothing && new == old
        } else {
            &&& r matches Action::StartSearch(files, query) && files@ == old.file_list@
                && query@ == lower_of(old.typed_input@)
            &&& new == (Vuit { search_in_progress: true, ..old })
        },
        Key::Esc => r is Nothing && new == (Vuit { exit: true, ..old }),
        Key::Ctrl('j') | Key::Down => r is Nothing && new == (Vuit {
            hltd_file: moved_down(old.hltd_file as nat, old.focused_len()) as usize,
            ..old
        }),
        Key::Ctrl('k') | Key::Up => r is Nothing && new == (Vuit {
            hltd_file: moved_up(old.hltd_file as nat, old.focused_len()) as usize,
            ..old
        }),
        Key::Tab => r is Nothing && new == (Vuit {
            switch_focus: next_focus(
                old.switch_focus,
                old.recent_files@.len(),
                old.file_list@.len(),
                old.file_str_list@.len(),
            ),
            hltd_file: 0,
            ..old
        }),
        Key::Ctrl('r') => r is Nothing && new.current_str_filter == old.typed_input
            && new.typed_input@.len() == 0 && new == (Vuit {
            current_str_filter: new.current_str_filter,
            typed_input: new.typed_input,
            prev_context: old.switch_context,
            switch_context: Context::Stringsearchreplace,
            ..old
        }),
        Key::Ctrl('n') => r is Redraw && (
            new.colorscheme_index as nat,
            new.config.colorscheme@,
            new.config.highlight_color@,
        ) == scheme_step(
            (
                old.colorscheme_index as nat,
                old.config.colorscheme@,
                old.config.highlight_color@,
            ),
        ) && new == (Vuit {
            colorscheme_index: new.colorscheme_index,
            config: new.config,
            ..old
        }),
        Key::Ctrl('f') => r is Nothing && new.typed_input@.len() == 0
            && new.file_str_list@.len() == 0 && is_filtered_view(
            views(old.fd_list@),
            Seq::empty(),
            views(new.file_list@),
        ) && new == (Vuit {
            typed_input: new.typed_input,
            file_str_list: new.file_str_list,
            file_list: new.file_list,
            hltd_file: new.hltd_file,
            prev_context: old.switch_context,
            switch_context: Context::Fileviewer,
            ..old
        }),
        Key::Ctrl('x') => r is Nothing && if old.switch_focus == Focus::Recentfiles
            && old.recent_files@.len() > 0 {
            new.recent_files@ == old.recent_files@.remove(old.hltd_file as int)
                && new == (Vuit {
                recent_files: new.recent_files,
                hltd_file: 0,
                ..old
            })
        } else {
            new == old
        },
        Key::Ctrl('h') => r is Nothing && (new.switch_context, new.prev_context)
            == help_toggled(old.switch_context, old.prev_context) && new == (
        Vuit {
            switch_context: new.switch_context,
            prev_context: new.prev_context,
            ..old
        }),
        _ => r is Nothing && new == old,
    }
}

/// Handles a key press in content search. Enter opens the highlighted match
/// or, when none is highlighted, starts a search unless one is running;
/// Ctrl-r switches to search-and-replace with the typed term as the text to
/// replace.
pub fn handler(app: &mut Vuit, key: Key) -> (r: Action)
    requires
        old(app).wf(),
    ensures
        final(app).wf(),
        key_handled(*old(app), *final(app), key, r),
{
    match key {
        Key::Char(c) => {
            push_char(&mut app.typed_input, c);
            Action::Nothing
        },
        Key::Backspace => {
            pop_char(&mut app.typed_input);
            Action::Nothing
        },
        Key::Enter => {
            if app.switch_focus == Focus::Filestrlist && app.file_str_list.len() > 0 {
                open_match(app)
            } else if app.search_in_progress {
                Action::Nothing
            } else {
                app.search_in_progress = true;
                let files = clone_list(&app.file_list);
                let query = to_lower(app.typed_input.as_str());
                Action::StartSearch(files, query)
            }
        },
        Key::Esc => {
            app.exit = true;
            Action::Nothing
        },
        Key::Ctrl('j') | Key::Down => {
            app.move_down();
            Action::Nothing
        },
        Key::Ctrl('k') | Key::Up => {
            app.move_up();
            Action::Nothing
        },
        Key::Tab => {
            app.cycle_focus();
            Action::Nothing
        },
        Key::Ctrl('r') => {
            app.current_str_filter = app.typed_input.clone();
            app.typed_input = String::new();
            app.prev_context = app.switch_context;
            app.switch_context = Context::Stringsearchreplace;
            Action::Nothing
        },
        Key::Ctrl('n') => {
            next_colorscheme(app);
            Action::Redraw
        },
        Key::Ctrl('f') => {
            app.typed_input = String::new();
            app.file_str_list = Vec::new();
            app.prev_context = app.switch_context;
            app.switch_context = Context::Fileviewer;
            app.clamp_highlight();
            app.refilter();
            Action::Nothing
        },
        Key::Ctrl('x') => {
            app.remove_recent();
            Action::Nothing
        },
        Key::Ctrl('h') => {
            app.toggle_help();
            Action::Nothing
        },
        _ => Action::Nothing,
    }
}

} // verus!
