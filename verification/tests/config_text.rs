use bot_supervisor::config::{
    default_env_template, env_configured, env_read_error, env_write_error, merge_env_template,
    parse_env, render_env, ConfigMap,
};
use bot_supervisor::text::{
    contains_str, eq_str, join_lines, split_lines, starts_with_str, trim_str, u64_to_string,
};

#[test]
fn decimal_rendering() {
    assert_eq!(u64_to_string(0), "0");
    assert_eq!(u64_to_string(7), "7");
    assert_eq!(u64_to_string(10), "10");
    assert_eq!(u64_to_string(409), "409");
    assert_eq!(u64_to_string(18446744073709551615), "18446744073709551615");
}

#[test]
fn trimming_strips_ascii_whitespace() {
    assert_eq!(trim_str("  a b\t"), "a b");
    assert_eq!(trim_str("\r\nx\r\n"), "x");
    assert_eq!(trim_str("   "), "");
    assert_eq!(trim_str(""), "");
    assert_eq!(trim_str("plain"), "plain");
}

#[test]
fn searching_and_prefixes() {
    assert!(contains_str("TG_BOT_TOKEN=x", "TG_BOT_TOKEN="));
    assert!(!contains_str("TG_BOT=x", "TG_BOT_TOKEN="));
    assert!(contains_str("anything", ""));
    assert!(starts_with_str("# KEY=", "# "));
    assert!(!starts_with_str("KEY=", "# "));
    assert!(eq_str("same", "same"));
    assert!(!eq_str("same", "sane"));
}

#[test]
fn line_splitting_like_a_line_reader() {
    let empty: Vec<String> = Vec::new();
    assert_eq!(split_lines(""), empty);
    assert_eq!(split_lines("a"), vec!["a"]);
    assert_eq!(split_lines("a\n"), vec!["a"]);
    assert_eq!(split_lines("a\n\nb"), vec!["a", "", "b"]);
    assert_eq!(split_lines("\n"), vec![""]);
    assert_eq!(join_lines(&vec![String::from("a"), String::new(), String::from("b")]), "a\n\nb");
}

#[test]
fn parsing_skips_blanks_and_comments() {
    let cfg = parse_env("# a comment\n\n  KEY = value \nno_equals_line\nB=2");
    assert_eq!(cfg.len(), 2);
    assert_eq!(cfg.get(&String::from("KEY")), Some(String::from("value")));
    assert_eq!(cfg.get(&String::from("B")), Some(String::from("2")));
    assert_eq!(cfg.get(&String::from("no_equals_line")), None);
}

#[test]
fn parsing_last_assignment_wins() {
    let cfg = parse_env("K=first\nA=1\nK=second");
    assert_eq!(cfg.len(), 2);
    assert_eq!(cfg.get(&String::from("K")), Some(String::from("second")));
    // the key keeps its first place in the order
    assert_eq!(render_env(&cfg), "K=second\nA=1");
}

#[test]
fn parsing_splits_at_the_first_equals() {
    let cfg = parse_env("URL=redis://localhost:6379?a=b");
    assert_eq!(cfg.get(&String::from("URL")), Some(String::from("redis://localhost:6379?a=b")));
}

#[test]
fn rendering_joins_assignments() {
    let mut cfg = ConfigMap::new();
    assert_eq!(render_env(&cfg), "");
    cfg.insert(String::from("A"), String::from("1"));
    assert_eq!(render_env(&cfg), "A=1");
    cfg.insert(String::from("B"), String::from("2"));
    assert_eq!(render_env(&cfg), "A=1\nB=2");
    cfg.insert(String::from("A"), String::from("3"));
    assert_eq!(render_env(&cfg), "A=3\nB=2");
}

#[test]
fn parse_render_round_trip() {
    let mut cfg = ConfigMap::new();
    cfg.insert(String::from("TG_BOT_TOKEN"), String::from("example-token"));
    cfg.insert(String::from("STORAGE_TYPE"), String::from("memory"));
    let text = render_env(&cfg);
    let back = parse_env(&text);
    assert_eq!(render_env(&back), text);
}

#[test]
fn merging_replaces_assignments_in_place() {
    let template = "A=\nB=old\nC=3";
    let mut updates = ConfigMap::new();
    updates.insert(String::from("B"), String::from("new"));
    assert_eq!(merge_env_template(template, &updates), "A=\nB=new\nC=3");
}

#[test]
fn merging_uncomments_a_commented_assignment() {
    let template = "X=1\n# REDIS_URL=redis://localhost:6379";
    let mut updates = ConfigMap::new();
    updates.insert(String::from("REDIS_URL"), String::from("redis://db:6379"));
    assert_eq!(merge_env_template(template, &updates), "X=1\nREDIS_URL=redis://db:6379");
}

#[test]
fn merging_appends_a_new_key() {
    let template = "A=1";
    let mut updates = ConfigMap::new();
    updates.insert(String::from("NEW"), String::from("x"));
    assert_eq!(merge_env_template(template, &updates), "A=1\nNEW=x");
}

#[test]
fn merging_the_default_template() {
    let mut updates = ConfigMap::new();
    updates.insert(String::from("TG_BOT_TOKEN"), String::from("example-token"));
    updates.insert(String::from("AGENT_PATH"), String::from("/usr/local/bin/agent"));
    let merged = merge_env_template(&default_env_template(), &updates);
    assert_eq!(
        merged,
        "# Telegram Bot Token (required)\nTG_BOT_TOKEN=example-token\n\n\
         # Coding agent binary path (required)\nAGENT_PATH=/usr/local/bin/agent\n\n\
         # Working directory for projects\nWORK_DIR=\n\n\
         # Storage type: redis or memory\nSTORAGE_TYPE=memory\n\n\
         # Redis URL (optional, for production)\n# REDIS_URL=redis://localhost:6379"
    );
    assert!(env_configured(&merged));
}

#[test]
fn an_empty_update_set_changes_nothing() {
    let updates = ConfigMap::new();
    assert_eq!(merge_env_template("A=1\nB=2", &updates), "A=1\nB=2");
}

#[test]
fn configured_needs_both_keys() {
    assert!(env_configured("TG_BOT_TOKEN=x\nAGENT_PATH=/bin/agent"));
    assert!(!env_configured("TG_BOT_TOKEN=x"));
    assert!(!env_configured("AGENT_PATH=/bin/agent"));
    assert!(!env_configured(""));
    assert!(env_configured(&default_env_template()));
}

#[test]
fn config_io_error_texts() {
    assert_eq!(
        env_read_error(&String::from("missing")),
        "Failed to read .env file: missing"
    );
    assert_eq!(
        env_write_error(&String::from("denied")),
        "Failed to write .env file: denied"
    );
}
