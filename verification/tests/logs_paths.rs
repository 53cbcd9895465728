use bot_supervisor::logs::{events_from_lines, log_event, LogLevel};
use bot_supervisor::paths::{
    bot_install_path, bot_package_json_path, candidate_agent_paths, chatcode_dir, env_example_path,
    env_file_path, node_modules_path, pick_detected_path, resolve_project_path, setup_flag_path,
};
use bot_supervisor::prereq::evaluate_prerequisites;

#[test]
fn one_line_one_event() {
    let e = log_event(String::from("ready"), false, String::from("12:00:00"));
    assert_eq!(e.level, LogLevel::Info);
    assert_eq!(e.message, "ready");
    assert_eq!(e.timestamp, "12:00:00");
    let e = log_event(String::from("boom"), true, String::from("12:00:01"));
    assert_eq!(e.level, LogLevel::Error);
    assert_eq!(e.level.label(), "error");
    assert_eq!(LogLevel::Info.label(), "info");
}

#[test]
fn a_thousand_lines_give_a_thousand_events_in_order() {
    let mut lines: Vec<Option<String>> = Vec::new();
    let mut timestamps: Vec<String> = Vec::new();
    for i in 0..1000 {
        lines.push(Some(format!("line {}", i)));
        timestamps.push(format!("t{}", i));
    }
    let events = events_from_lines(lines, false, timestamps);
    assert_eq!(events.len(), 1000);
    for (i, e) in events.iter().enumerate() {
        assert_eq!(e.level, LogLevel::Info);
        assert_eq!(e.message, format!("line {}", i));
        assert_eq!(e.timestamp, format!("t{}", i));
    }
}

#[test]
fn undecodable_lines_are_skipped_silently() {
    let lines = vec![
        Some(String::from("a")),
        None,
        Some(String::from("b")),
        None,
    ];
    let timestamps = vec![
        String::from("1"),
        String::from("2"),
        String::from("3"),
        String::from("4"),
    ];
    let events = events_from_lines(lines, true, timestamps);
    assert_eq!(events.len(), 2);
    assert_eq!(events[0].message, "a");
    assert_eq!(events[0].timestamp, "1");
    assert_eq!(events[0].level, LogLevel::Error);
    assert_eq!(events[1].message, "b");
    assert_eq!(events[1].timestamp, "3");
}

#[test]
fn project_path_resolution_order() {
    assert_eq!(
        resolve_project_path(Some(String::from("/work/bot")), Some(String::from("/home/u"))),
        "/work/bot"
    );
    assert_eq!(
        resolve_project_path(None, Some(String::from("/home/u"))),
        "/home/u/Project/c2me"
    );
    assert_eq!(resolve_project_path(None, None), "/tmp/c2me");
}

#[test]
fn well_known_paths() {
    assert_eq!(bot_install_path(Some(String::from("/home/u"))), "/home/u/.chatcode/bot");
    assert_eq!(bot_install_path(None), "/tmp/.chatcode/bot");
    assert_eq!(chatcode_dir("/home/u"), "/home/u/.chatcode");
    assert_eq!(setup_flag_path("/home/u"), "/home/u/.chatcode/setup_complete");
    assert_eq!(bot_package_json_path("/home/u"), "/home/u/.chatcode/bot/package.json");
    assert_eq!(env_file_path("/p"), "/p/.env");
    assert_eq!(env_example_path("/p"), "/p/.env.example");
    assert_eq!(node_modules_path("/p"), "/p/node_modules");
}

#[test]
fn candidate_binaries_in_lookup_order() {
    let c = candidate_agent_paths("/home/u");
    assert_eq!(
        c,
        vec![
            String::from("/opt/homebrew/bin/agent"),
            String::from("/usr/local/bin/agent"),
            String::from("/usr/local/bin/agent-code"),
            String::from("/home/u/.local/bin/agent"),
            String::from("/home/u/.cargo/bin/agent"),
        ]
    );
}

#[test]
fn detection_prefers_the_first_existing_candidate() {
    let paths = candidate_agent_paths("/home/u");
    let exists = vec![false, true, true, false, false];
    assert_eq!(
        pick_detected_path(&paths, &exists, None),
        Some(String::from("/usr/local/bin/agent"))
    );
}

#[test]
fn detection_falls_back_to_the_shell_lookup() {
    let paths = candidate_agent_paths("/home/u");
    let none = vec![false; 5];
    assert_eq!(
        pick_detected_path(&paths, &none, Some(String::from("  /nix/bin/agent\n"))),
        Some(String::from("/nix/bin/agent"))
    );
    assert_eq!(pick_detected_path(&paths, &none, Some(String::from("  \n"))), None);
    assert_eq!(pick_detected_path(&paths, &none, None), None);
}

#[test]
fn prerequisites_from_probe_results() {
    let r = evaluate_prerequisites(
        Some(String::from("v20.11.0\n")),
        None,
        true,
        false,
        Some(String::from("TG_BOT_TOKEN=x\nAGENT_PATH=/bin/agent")),
    );
    assert!(r.node_installed);
    assert_eq!(r.node_version, Some(String::from("v20.11.0")));
    assert!(!r.pnpm_installed);
    assert_eq!(r.pnpm_version, None);
    assert!(r.project_exists);
    assert!(!r.dependencies_installed);
    assert!(r.env_configured);
}

#[test]
fn prerequisites_with_nothing_found() {
    let r = evaluate_prerequisites(None, None, false, false, None);
    assert!(!r.node_installed);
    assert_eq!(r.node_version, None);
    assert!(!r.env_configured);
}
