use fuzzy_matcher::skim::SkimMatcherV2;
use fuzzy_matcher::FuzzyMatcher;
use vuit::events::dispatch_event;
use vuit::fuzzy::fuzzy_filter;
use vuit::state::{Action, Context, Focus, Key, TermRequest, Vuit, VuitRC};
use vuit::ui::{build_help_text, next_colorscheme};

fn strings(v: &[&str]) -> Vec<String> {
    v.iter().map(|s| s.to_string()).collect()
}

fn session(files: &[&str]) -> Vuit {
    let mut app = Vuit::new(VuitRC::default());
    app.set_index(strings(files));
    app
}

#[test]
fn query_ranks_matching_file_first_and_drops_others() {
    let index = strings(&["src/main.rs", "README.md", "LICENSE"]);
    let r = fuzzy_filter(&index, "mai");
    assert_eq!(r[0], "src/main.rs");
    assert!(!r.contains(&"LICENSE".to_string()));
    if let Some(pos) = r.iter().position(|s| s == "README.md") {
        assert!(pos > 0);
    }
}

#[test]
fn filter_output_is_sorted_by_score() {
    let index = strings(&["abc.rs", "a/b/c.rs", "xyz", "cab", "aXbXc", "src/abc/main.rs"]);
    let r = fuzzy_filter(&index, "abc");
    let m = SkimMatcherV2::default();
    let scores: Vec<i64> = r.iter().map(|s| m.fuzzy_match(s, "abc").unwrap()).collect();
    for w in scores.windows(2) {
        assert!(w[0] >= w[1]);
    }
    for e in &index {
        let matched = m.fuzzy_match(e, "abc").is_some();
        assert_eq!(matched, r.contains(e));
    }
}

#[test]
fn empty_query_keeps_index_order() {
    let index = strings(&["b.rs", "a.rs", "c\u{7}.rs"]);
    assert_eq!(fuzzy_filter(&index, ""), strings(&["b.rs", "a.rs", "c.rs"]));
}

#[test]
fn move_down_at_last_entry_stays() {
    let mut app = session(&["a", "b", "c"]);
    assert_eq!(app.file_list.len(), 3);
    app.hltd_file = 2;
    let r = dispatch_event(&mut app, Key::Down, false);
    assert!(matches!(r, Action::Nothing));
    assert_eq!(app.hltd_file, 2);
}

#[test]
fn move_up_and_down_within_bounds() {
    let mut app = session(&["a", "b", "c"]);
    dispatch_event(&mut app, Key::Up, false);
    assert_eq!(app.hltd_file, 0);
    dispatch_event(&mut app, Key::Ctrl('j'), false);
    assert_eq!(app.hltd_file, 1);
    dispatch_event(&mut app, Key::Ctrl('k'), false);
    assert_eq!(app.hltd_file, 0);
}

#[test]
fn typing_refilters_and_clamps() {
    let mut app = session(&["src/main.rs", "README.md", "LICENSE"]);
    app.hltd_file = 2;
    dispatch_event(&mut app, Key::Char('m'), false);
    dispatch_event(&mut app, Key::Char('a'), false);
    dispatch_event(&mut app, Key::Char('i'), false);
    assert_eq!(app.typed_input, "mai");
    assert_eq!(app.file_list, strings(&["src/main.rs"]));
    assert_eq!(app.hltd_file, 0);
    dispatch_event(&mut app, Key::Backspace, false);
    assert_eq!(app.typed_input, "ma");
}

#[test]
fn opening_files_fills_recent_list_up_to_five() {
    let files = ["f1", "f2", "f3", "f4", "f5", "f6"];
    let mut app = session(&files);
    for i in 0..6 {
        app.hltd_file = app.file_list.iter().position(|s| s == files[i]).unwrap();
        let r = dispatch_event(&mut app, Key::Enter, false);
        match r {
            Action::OpenEditor(p, line) => {
                assert_eq!(p, files[i]);
                assert!(line.is_none());
            }
            _ => panic!("expected the editor to open"),
        }
        assert!(app.recent_files.len() <= 5);
    }
    assert_eq!(app.recent_files, strings(&["f2", "f3", "f4", "f5", "f6"]));
    app.hltd_file = app.file_list.iter().position(|s| s == "f4").unwrap();
    dispatch_event(&mut app, Key::Enter, false);
    assert_eq!(app.recent_files, strings(&["f2", "f3", "f4", "f5", "f6"]));
}

#[test]
fn tab_moves_focus_to_non_empty_lists() {
    let mut app = session(&["a", "b"]);
    dispatch_event(&mut app, Key::Tab, false);
    assert_eq!(app.switch_focus, Focus::Filelist);
    dispatch_event(&mut app, Key::Enter, false);
    dispatch_event(&mut app, Key::Tab, false);
    assert_eq!(app.switch_focus, Focus::Recentfiles);
    assert_eq!(app.hltd_file, 0);
    dispatch_event(&mut app, Key::Tab, false);
    assert_eq!(app.switch_focus, Focus::Filelist);
}

#[test]
fn color_scheme_cycles_back_after_ten_steps() {
    let mut app = session(&[]);
    next_colorscheme(&mut app);
    assert_eq!(app.colorscheme_index, 1);
    assert_eq!(app.config.colorscheme, "cyan");
    assert_eq!(app.config.highlight_color, "lightgreen");
    let start = (app.colorscheme_index, app.config.colorscheme.clone(), app.config.highlight_color.clone());
    for _ in 0..10 {
        next_colorscheme(&mut app);
    }
    assert_eq!((app.colorscheme_index, app.config.colorscheme.clone(), app.config.highlight_color.clone()), start);
    let r = dispatch_event(&mut app, Key::Ctrl('n'), false);
    assert!(matches!(r, Action::Redraw));
    assert_eq!(app.config.colorscheme, "lightgreen");
}

#[test]
fn help_toggles_back_to_previous_context() {
    let mut app = session(&["a"]);
    dispatch_event(&mut app, Key::Ctrl('f'), false);
    assert_eq!(app.switch_context, Context::Stringsearch);
    dispatch_event(&mut app, Key::Ctrl('h'), false);
    assert_eq!(app.switch_context, Context::Help);
    dispatch_event(&mut app, Key::Ctrl('h'), false);
    assert_eq!(app.switch_context, Context::Stringsearch);
}

#[test]
fn escape_sets_exit_flag() {
    let mut app = session(&[]);
    dispatch_event(&mut app, Key::Esc, false);
    assert!(app.exit);
}

#[test]
fn search_starts_once_and_installs_result_once() {
    let mut app = session(&["a.txt", "b.txt"]);
    dispatch_event(&mut app, Key::Ctrl('f'), false);
    for c in "BaR".chars() {
        dispatch_event(&mut app, Key::Char(c), false);
    }
    match dispatch_event(&mut app, Key::Enter, false) {
        Action::StartSearch(files, query) => {
            assert_eq!(files, strings(&["a.txt", "b.txt"]));
            assert_eq!(query, "bar");
        }
        _ => panic!("expected a search to start"),
    }
    assert!(app.search_in_progress);
    assert!(matches!(dispatch_event(&mut app, Key::Enter, false), Action::Nothing));
    assert!(!app.search_ready(1));
    assert!(app.search_ready(2));
    app.finish_search(strings(&["a.txt:2:bar"]));
    assert!(!app.search_in_progress);
    assert!(!app.search_ready(2));
    assert_eq!(app.file_str_list, strings(&["a.txt:2:bar"]));
}

#[test]
fn opening_a_match_passes_its_line_to_vim() {
    let mut app = session(&["a.txt"]);
    dispatch_event(&mut app, Key::Ctrl('f'), false);
    app.search_in_progress = true;
    app.finish_search(strings(&["a.txt:2:bar"]));
    dispatch_event(&mut app, Key::Tab, false);
    assert_eq!(app.switch_focus, Focus::Filestrlist);
    match dispatch_event(&mut app, Key::Enter, false) {
        Action::OpenEditor(p, line) => {
            assert_eq!(p, "a.txt");
            assert_eq!(line, Some("2".to_string()));
        }
        _ => panic!("expected the editor to open"),
    }
    assert_eq!(app.recent_files, strings(&["a.txt"]));
}

#[test]
fn replace_mode_hands_matches_over() {
    let mut app = session(&["a.txt"]);
    dispatch_event(&mut app, Key::Ctrl('f'), false);
    for c in "bar".chars() {
        dispatch_event(&mut app, Key::Char(c), false);
    }
    app.search_in_progress = true;
    app.finish_search(strings(&["a.txt:2:bar"]));
    dispatch_event(&mut app, Key::Ctrl('r'), false);
    assert_eq!(app.switch_context, Context::Stringsearchreplace);
    assert_eq!(app.current_str_filter, "bar");
    for c in "baz".chars() {
        dispatch_event(&mut app, Key::Char(c), false);
    }
    match dispatch_event(&mut app, Key::Enter, false) {
        Action::Replace(entries, filter, replacement) => {
            assert_eq!(entries, strings(&["a.txt:2:bar"]));
            assert_eq!(filter, "bar");
            assert_eq!(replacement, "baz");
        }
        _ => panic!("expected a replace"),
    }
    assert!(app.file_str_list.is_empty());
    assert!(app.typed_input.is_empty());
}

#[test]
fn removing_a_recent_file() {
    let mut app = session(&["a", "b"]);
    dispatch_event(&mut app, Key::Enter, false);
    dispatch_event(&mut app, Key::Down, false);
    dispatch_event(&mut app, Key::Enter, false);
    assert_eq!(app.recent_files.len(), 2);
    dispatch_event(&mut app, Key::Ctrl('f'), false);
    dispatch_event(&mut app, Key::Tab, false);
    assert_eq!(app.switch_focus, Focus::Recentfiles);
    dispatch_event(&mut app, Key::Ctrl('x'), false);
    assert_eq!(app.recent_files.len(), 1);
    assert_eq!(app.hltd_file, 0);
}

#[test]
fn terminal_toggle_and_commands() {
    let mut app = session(&["a"]);
    assert!(matches!(dispatch_event(&mut app, Key::Ctrl('t'), true), Action::SplitWindow));
    dispatch_event(&mut app, Key::Ctrl('t'), false);
    assert_eq!(app.switch_context, Context::Terminal);
    for c in ";;ls -l".chars() {
        dispatch_event(&mut app, Key::Char(c), false);
    }
    match dispatch_event(&mut app, Key::Enter, false) {
        Action::Terminal(TermRequest::Write(c)) => assert_eq!(c, "ls -l"),
        _ => panic!("expected a write to the shell"),
    }
    assert!(app.typed_input.is_empty());
    assert!(matches!(dispatch_event(&mut app, Key::Ctrl('c'), false), Action::Terminal(TermRequest::Interrupt)));
    for c in "exit".chars() {
        dispatch_event(&mut app, Key::Char(c), false);
    }
    assert!(matches!(dispatch_event(&mut app, Key::Enter, false), Action::Terminal(TermRequest::Restart)));
    assert_eq!(app.switch_context, Context::Fileviewer);
}

#[test]
fn run_highlighted_file_in_terminal() {
    let mut app = session(&["run.sh"]);
    match dispatch_event(&mut app, Key::Ctrl('x'), false) {
        Action::RunInTerminal(p) => assert_eq!(p, "run.sh"),
        _ => panic!("expected a run"),
    }
    assert_eq!(app.switch_context, Context::Terminal);
}

#[test]
fn preview_follows_the_cursor() {
    let mut app = session(&["a", "b"]);
    dispatch_event(&mut app, Key::Down, false);
    assert_eq!(app.preview_target(), Some("b".to_string()));
    assert_eq!(app.preview_line_count(), 50);
    dispatch_event(&mut app, Key::Ctrl('h'), false);
    assert_eq!(app.preview_line_count(), 30);
    let empty = session(&[]);
    assert_eq!(empty.preview_target(), None);
}

#[test]
fn help_text_lines() {
    let h = build_help_text();
    assert_eq!(h.len(), 15);
    assert_eq!(h[0], "(General Commands)");
    assert_eq!(h[14], "restart - If terminal seems unresponsive, this will restart the session");
}
