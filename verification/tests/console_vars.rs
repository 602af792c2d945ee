use leafish::auth;
use leafish::console::text::{
    bool_to_text, int_to_text, quote, text_to_bool, text_to_int, unquote,
};
use leafish::console::{
    configure_levels, file_log_level, log_level_file, log_level_from_str, log_level_term,
    register_vars, term_log_level, text_to_value, value_to_text, CVar, Level, Var, VarData,
    VarKind, Vars, _log_level_from_str,
};

fn int_var(name: &'static str, default: i64) -> CVar<i64> {
    CVar { name, description: "a number", mutable: true, serializable: true, default }
}

#[test]
fn integers_are_written_in_decimal() {
    assert_eq!(int_to_text(0), "0");
    assert_eq!(int_to_text(7), "7");
    assert_eq!(int_to_text(-42), "-42");
    assert_eq!(int_to_text(1234567890), "1234567890");
    assert_eq!(int_to_text(i64::MAX), i64::MAX.to_string());
    assert_eq!(int_to_text(i64::MIN), "-9223372036854775808");
}

#[test]
fn integers_are_read_as_rust_reads_them() {
    for s in ["0", "+5", "-5", "007", "-0", "9223372036854775807", "-9223372036854775808"] {
        assert_eq!(text_to_int(s), s.parse::<i64>().ok(), "{}", s);
    }
    for s in ["", "-", "+", "12a", " 1", "9223372036854775808", "-9223372036854775809", "1_0", "99999999999999999999999"] {
        assert_eq!(text_to_int(s), None, "{}", s);
        assert!(s.parse::<i64>().is_err());
    }
}

#[test]
fn integer_text_roundtrip() {
    for v in [0i64, 1, -1, 10, -10, 65535, i64::MAX, i64::MIN, 42424242] {
        assert_eq!(text_to_int(&int_to_text(v)), Some(v));
    }
}

#[test]
fn booleans_roundtrip_and_reject_other_text() {
    assert_eq!(bool_to_text(true), "true");
    assert_eq!(bool_to_text(false), "false");
    assert_eq!(text_to_bool("true"), Some(true));
    assert_eq!(text_to_bool("false"), Some(false));
    assert_eq!(text_to_bool("True"), None);
    assert_eq!(text_to_bool("1"), None);
    assert_eq!(text_to_bool(""), None);
}

#[test]
fn strings_are_quoted() {
    assert_eq!(quote("info"), "\"info\"");
    assert_eq!(quote(""), "\"\"");
    assert_eq!(unquote("\"info\""), "info");
    assert_eq!(unquote("xabcx"), "abc");
    assert_eq!(unquote(&quote("with space")), "with space");
}

#[test]
fn values_are_read_back_by_kind() {
    let v = text_to_value(VarKind::Int, "-17").unwrap();
    assert!(matches!(v, VarData::Int(-17)));
    assert!(text_to_value(VarKind::Int, "x").is_none());
    assert!(matches!(text_to_value(VarKind::Bool, "false"), Some(VarData::Bool(false))));
    match text_to_value(VarKind::Text, "\"trace\"") {
        Some(VarData::Text(s)) => assert_eq!(s, "trace"),
        _ => panic!("expected text"),
    }
    assert!(text_to_value(VarKind::Text, "\"").is_none());
    assert!(text_to_value(VarKind::Text, "é\"").is_none());
    assert_eq!(value_to_text(&VarData::Text("a b".to_string())), "\"a b\"");
    assert_eq!(value_to_text(&VarData::Int(12)), "12");
}

#[test]
fn var_trait_serializes_and_deserializes() {
    let v = int_var("speed", 3);
    assert_eq!(v.serialize(&VarData::Int(99)), "99");
    assert!(matches!(v.deserialize("-3"), VarData::Int(-3)));
    assert_eq!(v.description(), "a number");
    assert!(v.can_serialize());
    let t = log_level_term();
    assert_eq!(t.serialize(&VarData::Text("warn".to_string())), "\"warn\"");
    match t.deserialize("\"warn\"") {
        VarData::Text(s) => assert_eq!(s, "warn"),
        _ => panic!("expected text"),
    }
}

#[test]
fn registered_variables_hold_their_defaults() {
    let mut vars = Vars::new();
    register_vars(&mut vars);
    auth::register_vars(&mut vars);
    assert_eq!(vars.get(log_level_term()), "info");
    assert_eq!(vars.get(log_level_file()), "trace");
    assert_eq!(vars.get(auth::auth_client_token()), "");
    vars.register(int_var("speed", 3));
    assert_eq!(vars.get(int_var("speed", 0)), 3);
}

#[test]
fn set_then_get_gives_the_value_and_leaves_others() {
    let mut vars = Vars::new();
    register_vars(&mut vars);
    vars.register(int_var("speed", 3));
    vars.set(log_level_term(), "debug".to_string());
    vars.set(int_var("speed", 0), -8);
    assert_eq!(vars.get(log_level_term()), "debug");
    assert_eq!(vars.get(log_level_file()), "trace");
    assert_eq!(vars.get(int_var("speed", 0)), -8);
}

#[test]
fn config_text_lists_saved_variables() {
    let mut vars = Vars::new();
    register_vars(&mut vars);
    assert_eq!(
        vars.config_text(),
        "# log level of messages to log to the terminal\nlog_level_term \"info\"\n\n\
         # log level of messages to log to the log file\nlog_level_file \"trace\"\n\n"
    );
    let mut vars = Vars::new();
    auth::register_vars(&mut vars);
    vars.register(CVar {
        name: "hidden",
        description: "not saved",
        mutable: true,
        serializable: false,
        default: true,
    });
    assert_eq!(
        vars.config_text(),
        "# auth_client_token is a token that stays static between sessions.\n\
         # Used to identify this client vs others.\nauth_client_token \"\"\n\n"
    );
}

#[test]
fn config_lines_are_read_back() {
    let mut vars = Vars::new();
    register_vars(&mut vars);
    vars.register(CVar {
        name: "fixed",
        description: "not saved",
        mutable: true,
        serializable: false,
        default: 5i64,
    });
    for line in ["# a comment", "", "unknown 12", "log_level_term \"warn\"", "fixed 9"] {
        assert!(vars.config_line_ok(line), "{}", line);
        vars.load_config_line(line);
    }
    assert_eq!(vars.get(log_level_term()), "warn");
    assert_eq!(vars.get(log_level_file()), "trace");
    assert_eq!(vars.get(CVar { name: "fixed", description: "", mutable: true, serializable: false, default: 0i64 }), 5);
    assert!(!vars.config_line_ok("log_level_term"));
    assert!(!vars.config_line_ok("fixed nine"));
    assert!(!vars.config_line_ok("log_level_file x"));
    assert!(vars.config_line_ok("unknown_without_value_check x"));
}

#[test]
fn saved_text_loads_back_to_the_same_values() {
    let mut vars = Vars::new();
    register_vars(&mut vars);
    auth::register_vars(&mut vars);
    vars.register(int_var("speed", 3));
    vars.set(log_level_term(), "error".to_string());
    vars.set(int_var("speed", 0), i64::MIN);
    vars.set(auth::auth_client_token(), "tok en".to_string());
    let text = vars.config_text();

    let mut fresh = Vars::new();
    register_vars(&mut fresh);
    auth::register_vars(&mut fresh);
    fresh.register(int_var("speed", 3));
    for line in text.lines() {
        assert!(fresh.config_line_ok(line));
        fresh.load_config_line(line);
    }
    assert_eq!(fresh.get(log_level_term()), "error");
    assert_eq!(fresh.get(log_level_file()), "trace");
    assert_eq!(fresh.get(int_var("speed", 0)), i64::MIN);
    assert_eq!(fresh.get(auth::auth_client_token()), "tok en");
}

#[test]
fn exact_level_names() {
    assert_eq!(log_level_from_str("trace", Level::Info), Level::Trace);
    assert_eq!(log_level_from_str("warn", Level::Info), Level::Warn);
    assert_eq!(log_level_from_str("WARN", Level::Info), Level::Info);
    assert_eq!(log_level_from_str("", Level::Error), Level::Error);
    assert_eq!(_log_level_from_str("error"), Some(Level::Error));
    assert_eq!(_log_level_from_str("debug"), Some(Level::Debug));
    assert_eq!(_log_level_from_str("off"), None);
}

#[test]
fn setting_levels_ignore_ascii_case() {
    assert_eq!(term_log_level("DEBUG"), Some(Level::Debug));
    assert_eq!(term_log_level("wArN"), Some(Level::Warn));
    assert_eq!(file_log_level("info"), Some(Level::Info));
    assert_eq!(file_log_level("off"), None);
    assert_eq!(file_log_level("verbose"), None);
}

#[test]
fn environment_overrides_settings() {
    assert_eq!(configure_levels("bogus", "bogus", None, None, None), (Level::Info, Level::Debug));
    assert_eq!(configure_levels("warn", "error", None, None, None), (Level::Warn, Level::Error));
    assert_eq!(configure_levels("WARN", "Error", None, None, None), (Level::Info, Level::Debug));
    assert_eq!(
        configure_levels("WARN", "error", Some("Warn"), None, Some("TRACE")),
        (Level::Warn, Level::Trace)
    );
    assert_eq!(
        configure_levels("warn", "error", Some("trace"), None, None),
        (Level::Trace, Level::Trace)
    );
    assert_eq!(
        configure_levels("warn", "error", Some("trace"), Some("info"), None),
        (Level::Trace, Level::Info)
    );
    assert_eq!(
        configure_levels("warn", "error", None, Some("debug"), Some("error")),
        (Level::Debug, Level::Error)
    );
    assert_eq!(
        configure_levels("warn", "error", Some("nonsense"), None, None),
        (Level::Warn, Level::Error)
    );
}
