use vuit::replace::{entry_line, entry_path, join_lines, parse_entry, parse_number, replace_files, replace_in_file};
use vuit::search::{line_matches, scan_file};
use vuit::terminal::{classify_command, TermCommand, TermOutput};
use vuit::utils::{
    clean_utf8_content, color_named, expand_tilde, expand_tilde_in, grab_config_color, remove_ansi_escape_codes,
    tidy_terminal_text, Color,
};

fn strings(v: &[&str]) -> Vec<String> {
    v.iter().map(|s| s.to_string()).collect()
}

#[test]
fn cleaning_drops_control_and_non_ascii() {
    assert_eq!(clean_utf8_content("a\tb\u{7}c é\n"), "abc \n");
    assert_eq!(clean_utf8_content(""), "");
}

#[test]
fn terminal_text_is_tidied() {
    assert_eq!(tidy_terminal_text("a\r\tb"), "a    b");
    assert_eq!(remove_ansi_escape_codes("\x1b[31mred\x1b[0m\r\n\tx"), "red\n    x");
    assert_eq!(remove_ansi_escape_codes("\x1b[1;32mok\x1b[m"), "ok");
}

#[test]
fn colors_by_name() {
    assert_eq!(grab_config_color("BLUE"), Color::Blue);
    assert_eq!(grab_config_color("LightCyan"), Color::LightCyan);
    assert_eq!(grab_config_color("red"), Color::Green);
    assert_eq!(grab_config_color("purple"), Color::LightBlue);
    assert_eq!(color_named("gray"), Color::Gray);
    assert_eq!(color_named("Gray"), Color::LightBlue);
}

#[test]
fn tilde_expansion() {
    assert_eq!(expand_tilde_in("~/.vuit/.vuitrc", Some("/home/u".to_string())), "/home/u/.vuit/.vuitrc");
    assert_eq!(expand_tilde_in("~/x", Some("/home/u/".to_string())), "/home/u/x");
    assert_eq!(expand_tilde_in("~/x", None), "~/x");
    assert_eq!(expand_tilde_in("/etc/x", Some("/home/u".to_string())), "/etc/x");
    assert_eq!(expand_tilde("relative/path"), "relative/path");
}

#[test]
fn line_matching_on_lowered_text() {
    assert!(line_matches("hello bar world", "bar"));
    assert!(!line_matches("hello", "bar"));
    assert!(line_matches("anything", ""));
}

#[test]
fn scanning_a_file() {
    let lines = vec![Some("foo".to_string()), Some("Bar baz".to_string()), None, Some("BAR\u{7}".to_string())];
    assert_eq!(scan_file("a.txt", &lines, "bar"), strings(&["a.txt:2:Bar baz", "a.txt:4:BAR"]));
    assert!(scan_file("a.txt", &lines, "qux").is_empty());
}

#[test]
fn replace_on_recorded_line_only() {
    let r = replace_in_file("a.txt", strings(&["foo", "bar"]), &strings(&["a.txt:2:bar"]), "bar", "baz");
    assert_eq!(r, strings(&["foo", "baz"]));
}

#[test]
fn replace_skips_other_files_and_missing_lines() {
    let entries = strings(&["b.txt:1:bar", "a.txt:9:bar", "a.txt:x:bar", "a.txt:1:barbar", "nocolon"]);
    let r = replace_in_file("a.txt", strings(&["barbar", "bar"]), &entries, "bar", "q");
    assert_eq!(r, strings(&["qq", "bar"]));
    assert_eq!(replace_files(&entries), strings(&["b.txt", "a.txt"]));
}

#[test]
fn entry_fields() {
    assert_eq!(entry_path("src/a.rs:12:let x: u8"), "src/a.rs");
    assert_eq!(entry_line("src/a.rs:12:let x: u8"), "12");
    assert_eq!(entry_path("plain"), "plain");
    assert_eq!(parse_entry("a:3:t"), Some(("a".to_string(), 3)));
    assert_eq!(parse_entry("a:3"), None);
}

#[test]
fn line_numbers_parse_like_usize() {
    assert_eq!(parse_number("42"), Some(42));
    assert_eq!(parse_number("+7"), Some(7));
    assert_eq!(parse_number(""), None);
    assert_eq!(parse_number("+"), None);
    assert_eq!(parse_number("4a"), None);
    assert_eq!(parse_number("18446744073709551615"), Some(usize::MAX));
    assert_eq!(parse_number("18446744073709551616"), None);
}

#[test]
fn joining_lines() {
    assert_eq!(join_lines(&strings(&["foo", "baz"])), "foo\nbaz");
    assert_eq!(join_lines(&strings(&[])), "");
}

#[test]
fn command_classification() {
    assert!(matches!(classify_command(";;exit"), TermCommand::Leave));
    assert!(matches!(classify_command("quit"), TermCommand::Leave));
    assert!(matches!(classify_command("vuit"), TermCommand::Joke));
    assert!(matches!(classify_command("clear"), TermCommand::Restart));
    assert!(matches!(classify_command("Exit"), TermCommand::Forward(_)));
    match classify_command(";echo;hi") {
        TermCommand::Forward(c) => assert_eq!(c, "echo;hi"),
        _ => panic!("expected a forwarded command"),
    }
}

#[test]
fn restart_discards_old_session_output() {
    let mut out = TermOutput::new();
    let old = out.generation();
    out.push_line(old, "before".to_string());
    assert_eq!(out.snapshot(), "before");
    out.restart();
    assert!(out.lines.is_empty());
    out.push_line(old, "late line of the old shell".to_string());
    assert!(out.lines.is_empty());
    out.push_line(out.generation(), "new".to_string());
    out.push_line(out.generation(), "shell".to_string());
    assert_eq!(out.snapshot(), "new\nshell");
    out.clear();
    assert_eq!(out.snapshot(), "");
}
