use crate::fuzzy::is_filtered_view;
use crate::recent::pushed_recent;
use crate::replace::{entry_path, path_part};
use crate::state::{clamped, help_toggled, moved_down, moved_up, next_focus, Action, Context, Focus, Key, Vuit};
use crate::ui::{next_colorscheme, scheme_step};
use crate::utils::{pop_char, push_char, views};
use vstd::prelude::*;

verus! {

/// The file that the highlighted entry names: the entry itself, or the path
/// of a content match.
pub open spec fn focused_path(app: Vuit) -> Seq<char> {
    if app.switch_focus == Focus::Filestrlist {
        path_part(app.focused_entry())
    } else {
        app.focused_entry()
    }
}

/// The state after typing changed the input to `typed`: the file list is
/// the index filtered against it and the cursor is brought back into the
/// focused list.
pub open spec fn retyped(old: Vuit, new: Vuit, typed: Seq<char>) -> bool {
    &&& new.typed_input@ == typed
    &&& is_filtered_view(views(old.fd_list@), typed, views(new.file_list@))
    &&& new.hltd_file == clamped(old.hltd_file as nat, new.focused_len())
    &&& new == (Vuit { typed_input: new.typed_input, file_list: new.file_list, hltd_file: new.hltd_file, ..old })
}

/// What a key press does to the state in this context, and what it asks for.
pub open spec fn key_handled(old: Vuit, new: Vuit, key: Key, in_tmux: bool, r: Action) -> bool {
    match key {
        Key::Char(c) => r is Nothing && retyped(old, new, old.typed_input@.push(c)),
        Key::Backspace => r is Nothing && if old.typed_input@.len() == 0 {
            new == old
        } else {
            retyped(old, new, old.typed_input@.drop_last())
        },
        Key::Enter => if old.focused_len() == 0 {
            r is Nothing && new == old
        } else {
            &&& r matches Action::OpenEditor(p, line) && p@ == focused_path(old) && line is None
            &&& old.switch_focus == Focus::Filelist ==> views(new.recent_files@)
                == pushed_recent(views(old.recent_files@), focused_path(old)) && new == (Vuit {
                recent_files: new.recent_files,
                ..old
            })
            &&& old.switch_focus != Focus::Filelist ==> new == old
        },
        Key::Ctrl('f') => r is Nothing && new.current_filter == old.typed_input
            && new.typed_input@.len() == 0 && new == (Vuit {
            current_filter: new.current_filter,
            typed_input: new.typed_input,
            prev_context: old.switch_context,
            switch_context: Context::Stringsearch,
            ..old
        }),
        Key::Ctrl('p') => r is Nothing && new == (Vuit {
            preview_toggle: !old.preview_toggle,
            ..old
        }),
        Key::Esc => r is Nothing && new == (Vuit { exit: true, ..old }),
        Key::Ctrl('j') | Key::Down => r is Nothing && new == (Vuit {
            hltd_file: moved_down(old.hltd_file as nat, old.focused_len()) as usize,
            ..old
        }),
        Key::Ctrl('k') | Key::Up => r is Nothing && new == (Vuit {
            hltd_file: moved_up(old.hltd_file as nat, old.focused_len()) as usize,
            ..old
        }),
        Key::Tab => r is Nothing && new == (Vuit {
            switch_focus: next_focus(
                old.switch_focus,
                old.recent_files@.len(),
                old.file_list@.len(),
                old.file_str_list@.len(),
            ),
            hltd_file: 0,
            ..old
        }),
        Key::Ctrl('r') => r is Rescan && new == old,
        Key::Ctrl('n') => r is Redraw && (
            new.colorscheme_index as nat,
            new.config.colorscheme@,
            new.config.highlight_color@,
        ) == scheme_step(
            (
                old.colorscheme_index as nat,
                old.config.colorscheme@,
                old.config.highlight_color@,
            ),
        ) && new == (Vuit {
            colorscheme_index: new.colorscheme_index,
            config: new.config,
            ..old
        }),
        Key::Ctrl('t') => if in_tmux {
            r is SplitWindow && new == old
        } else {
            r is Nothing && new.typed_input@.len() == 0 && new == (Vuit {
                typed_input: new.typed_input,
                prev_context: old.switch_context,
                switch_context: Context::Terminal,
                ..old
            })
        },
        Key::Ctrl('x') => if old.focused_len() == 0 {
            r is Nothing && new == old
        } else if in_tmux {
            r matches Action::RunInSplit(p) && p@ == focused_path(old) && new
                == old
        } else {
            r matches Action::RunInTerminal(p) && p@ == focused_path(old)
                && new.typed_input@.len() == 0 && new == (Vuit {
                typed_input: new.typed_input,
                prev_context: old.switch_context,
                switch_context: Context::Terminal,
                ..old
            })
        },
        Key::Ctrl('h') => r is Nothing && (new.switch_context, new.prev_context)
            == help_toggled(old.switch_context, old.prev_context) && new == (
        Vuit {
            switch_context: new.switch_context,
            prev_context: new.prev_context,
            ..old
        }),
        _ => r is Nothing && new == old,
    }
}

/// Handles a key press in the file browser (and in the help view); `in_tmux`
/// tells whether the program runs inside a terminal multiplexer.
pub fn handler(app: &mut Vuit, key: Key, in_tmux: bool) -> (r: Action)
    requires
        old(app).wf(),
    ensures
        final(app).wf(),
        key_handled(*old(app), *final(app), key, in_tmux, r),
{
    match key {
        Key::Char(c) => {
            push_char(&mut app.typed_input, c);
            app.refilter();
            Action::Nothing
        },
        Key::Backspace => {
            if app.typed_input.as_str().unicode_len() == 0 {
                return Action::Nothing;
            }
            pop_char(&mut app.typed_input);
            app.refilter();
            Action::Nothing
        },
        Key::Enter => {
            match app.highlighted() {
                None => Action::Nothing,
                Some(entry) => {
                    if app.switch_focus == Focus::Filestrlist {
                        Action::OpenEditor(entry_path(entry.as_str()), None)
                    } else {
                        if app.switch_focus == Focus::Filelist {
                            app.remember_opened(entry.clone());
                        }
                        Action::OpenEditor(entry, None)
                    }
                },
            }
        },
        Key::Ctrl('f') => {
            app.current_filter = app.typed_input.clone();
            app.typed_input = String::new();
            app.prev_context = app.switch_context;
            app.switch_context = Context::Stringsearch;
            Action::Nothing
        },
        Key::Ctrl('p') => {
            app.preview_toggle = !app.preview_toggle;
            Action::Nothing
        },
        Key::Esc => {
            app.exit = true;
            Action::Nothing
        },
        Key::Ctrl('j') | Key::Down => {
            app.move_down();
            Action::Nothing
        },
        Key::Ctrl('k') | Key::Up => {
            app.move_up();
            Action::Nothing
        },
        Key::Tab => {
            app.cycle_focus();
            Action::Nothing
        },
        Key::Ctrl('r') => Action::Rescan,
        Key::Ctrl('n') => {
            next_colorscheme(app);
            Action::Redraw
        },
        Key::Ctrl('t') => {
            if in_tmux {
                Action::SplitWindow
            } else {
                app.typed_input = String::new();
                app.prev_context = app.switch_context;
                app.switch_context = Context::Terminal;
                Action::Nothing
            }
        },
        Key::Ctrl('x') => {
            match app.highlighted() {
                None => Action::Nothing,
                Some(entry) => {
                    let path = if app.switch_focus == Focus::Filestrlist {
                        entry_path(entry.as_str())
                    } else {
                        entry
                    };
                    if in_tmux {
                        Action::RunInSplit(path)
                    } else {
                        app.typed_input = String::new();
                        app.prev_context = app.switch_context;
                        app.switch_context = Context::Terminal;
                        Action::RunInTerminal(path)
                    }
                },
            }
        },
        Key::Ctrl('h') => {
            app.toggle_help();
            Action::Nothing
        },
        _ => Action::Nothing,
    }
}

} // verus!
