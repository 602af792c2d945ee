use leafish::console::logging::{
    is_filtered, record_history_line, record_line, shown_source_path, starts_with, Color,
    ConsoleLog, HISTORY_LEN,
};
use leafish::console::Level;

#[test]
fn records_of_filtered_crates() {
    assert!(is_filtered("mime"));
    assert!(is_filtered("mime::parse"));
    assert!(!is_filtered("leafish::console"));
    assert!(!is_filtered(""));
    assert!(!is_filtered("mim"));
}

#[test]
fn prefixes() {
    assert!(starts_with("abc", ""));
    assert!(starts_with("abc", "ab"));
    assert!(!starts_with("ab", "abc"));
    assert!(!starts_with("xbc", "ab"));
}

#[test]
fn source_paths_as_shown() {
    assert_eq!(shown_source_path("src/main.rs"), "main.rs");
    assert_eq!(shown_source_path("C:\\proj\\src\\console\\mod.rs"), "console/mod.rs");
    assert_eq!(shown_source_path("a/src/b/src/c.rs"), "c.rs");
    assert_eq!(shown_source_path("lib.rs"), "lib.rs");
    assert_eq!(shown_source_path("x\\y.rs"), "x/y.rs");
    assert_eq!(shown_source_path(""), "");
    assert_eq!(shown_source_path("src/"), "");
}

#[test]
fn record_lines() {
    assert_eq!(record_line("main.rs", 42, Level::Warn, "hello"), "[main.rs:42][WARN] hello");
    assert_eq!(record_line("", 0, Level::Trace, ""), "[:0][TRACE] ");
    assert_eq!(record_line("a.rs", 7, Level::Error, "x y"), "[a.rs:7][ERROR] x y");
}

#[test]
fn history_line_parts() {
    let h = record_history_line("main.rs", 3, Level::Debug, "m");
    let texts: Vec<&str> = h.parts.iter().map(|p| p.text.as_str()).collect();
    assert_eq!(texts, vec!["[", "main.rs", ":", "3", "]", "[", "DEBUG", "] ", "m"]);
    assert_eq!(h.parts[1].color, Some(Color::Green));
    assert_eq!(h.parts[3].color, Some(Color::Aqua));
    assert_eq!(h.parts[6].color, Some(Color::Green));
    assert_eq!(h.parts[8].color, None);
    let e = record_history_line("a", 1, Level::Error, "");
    assert_eq!(e.parts[6].color, Some(Color::Red));
    let w = record_history_line("a", 1, Level::Warn, "");
    assert_eq!(w.parts[6].color, Some(Color::Yellow));
    let t = record_history_line("a", 1, Level::Trace, "");
    assert_eq!(t.parts[6].color, Some(Color::Blue));
}

#[test]
fn new_console_log() {
    let c = ConsoleLog::new();
    assert!(!c.is_active());
    assert_eq!(c.history().len(), HISTORY_LEN);
    assert_eq!(c.history()[0].parts.len(), 1);
    assert_eq!(c.history()[0].parts[0].text, "");
}

#[test]
fn filtered_record_changes_nothing() {
    let mut c = ConsoleLog::new();
    assert!(c.log(Some("mime::type"), Some("src/a.rs"), Some(1), Level::Error, "x").is_none());
    assert!(!c.take_dirty());
}

#[test]
fn records_go_where_their_level_passes() {
    let mut c = ConsoleLog::new();
    let w = c.log(Some("leafish"), Some("src/main.rs"), Some(3), Level::Debug, "m").unwrap();
    assert_eq!(w.line, "[main.rs:3][DEBUG] m");
    assert!(w.to_file);
    assert!(!w.to_terminal);
    assert!(!c.take_dirty());

    let w = c.log(None, None, None, Level::Error, "boom").unwrap();
    assert_eq!(w.line, "[:0][ERROR] boom");
    assert!(w.to_file);
    assert!(w.to_terminal);
    assert!(c.take_dirty());
    assert!(!c.take_dirty());
    let h = c.history();
    assert_eq!(h.len(), HISTORY_LEN);
    assert_eq!(h[HISTORY_LEN - 1].parts[6].text, "ERROR");
    assert_eq!(h[HISTORY_LEN - 1].parts[8].text, "boom");
    assert_eq!(h[HISTORY_LEN - 2].parts[0].text, "");
}

#[test]
fn configured_levels() {
    let mut c = ConsoleLog::new();
    c.configure("warn", "error", None, None, None);
    let w = c.log(None, None, None, Level::Info, "i").unwrap();
    assert!(!w.to_file);
    assert!(!w.to_terminal);
    let w = c.log(None, None, None, Level::Warn, "w").unwrap();
    assert!(!w.to_file);
    assert!(w.to_terminal);

    c.configure("nonsense", "nonsense", Some("TRACE"), None, None);
    let w = c.log(None, None, None, Level::Trace, "t").unwrap();
    assert!(w.to_file);
    assert!(w.to_terminal);
}

#[test]
fn toggling_the_console() {
    let mut c = ConsoleLog::new();
    c.toggle();
    assert!(c.is_active());
    c.toggle();
    assert!(!c.is_active());
    c.activate();
    assert!(c.is_active());
}
