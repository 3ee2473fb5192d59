use muxplan::command::Command;
use muxplan::config::{Config, WindowSpec};
use muxplan::existence::{classify, Existence};
use muxplan::layout::{resolve, resolve_with_config};
use muxplan::orchestrate::issue_list;

fn svec(parts: &[&str]) -> Vec<String> {
    parts.iter().map(|s| s.to_string()).collect()
}

fn window(name: &str, actions: &[&str], pwd: &str, select: bool) -> WindowSpec {
    WindowSpec { name: name.to_string(), actions: svec(actions), pwd: pwd.to_string(), select }
}

fn issued_args(tolerant: &[Command], fatal: &[Command]) -> Vec<Vec<String>> {
    tolerant.iter().chain(fatal.iter()).map(|c| c.args.clone()).collect()
}

#[test]
fn classification_of_exit_codes() {
    assert_eq!(classify(0), Existence::Exists);
    assert_eq!(classify(1), Existence::Absent);
    assert_eq!(classify(2), Existence::UnknownStatus(2));
    assert_eq!(classify(127), Existence::UnknownStatus(127));
    assert_eq!(classify(-1), Existence::UnknownStatus(-1));
}

#[test]
fn exists_attaches_and_nothing_else() {
    let config = Config {
        session: "dev".to_string(),
        windows: vec![window("editor", &["vim ."], "/src", true)],
    };
    let (_, plan) = resolve_with_config(&config);
    let issue = issue_list(plan, Some(0));
    assert!(issue.tolerant.is_empty());
    assert_eq!(issue.fatal.len(), 1);
    assert_eq!(issue.fatal[0].program, "tmux");
    assert_eq!(issue.fatal[0].args, svec(&["attach", "-t", "dev"]));
    assert_eq!(issue.report, None);
}

#[test]
fn absent_two_windows_full_order() {
    // Two windows, the second flagged for selection.
    let config = Config {
        session: "s".to_string(),
        windows: vec![
            window("w0", &["x"], "/p0", false),
            window("w1", &["y", "z"], "/p1", true),
        ],
    };
    let (_, plan) = resolve_with_config(&config);
    let issue = issue_list(plan, Some(1));
    assert_eq!(issue.report, None);
    // 1 session creation + 2 window creations + 2 directory changes
    // + 3 actions, all tolerant of their exit statuses.
    assert_eq!(issue.tolerant.len(), 8);
    // The selection (targeting window 1) and the attach, fatal on spawn
    // failure, in that order.
    assert_eq!(issue.fatal.len(), 2);
    let all = issued_args(&issue.tolerant, &issue.fatal);
    let expected = vec![
        svec(&["new-session", "-s", "s", "-n", "Server", "-d"]),
        svec(&["new-window", "-t", "s:0", "-n", "w0"]),
        svec(&["new-window", "-t", "s:1", "-n", "w1"]),
        svec(&["send-keys", "-t", "s:0.0", "cd /p0", "C-m"]),
        svec(&["send-keys", "-t", "s:1.0", "cd /p1", "C-m"]),
        svec(&["send-keys", "-t", "s:0.0", "x", "C-m"]),
        svec(&["send-keys", "-t", "s:1.0", "y", "C-m"]),
        svec(&["send-keys", "-t", "s:1.0", "z", "C-m"]),
        svec(&["select-window", "-t", "s:1.0"]),
        svec(&["attach", "-t", "s"]),
    ];
    assert_eq!(all, expected);
}

#[test]
fn unknown_code_reports_and_runs_nothing() {
    let config = Config { session: "dev".to_string(), windows: vec![] };
    let (_, plan) = resolve_with_config(&config);
    let issue = issue_list(plan, Some(42));
    assert!(issue.tolerant.is_empty());
    assert!(issue.fatal.is_empty());
    assert_eq!(issue.report, Some(42));
}

#[test]
fn abnormal_probe_termination_is_silent() {
    let config = Config { session: "dev".to_string(), windows: vec![] };
    let (_, plan) = resolve_with_config(&config);
    let issue = issue_list(plan, None);
    assert!(issue.tolerant.is_empty());
    assert!(issue.fatal.is_empty());
    assert_eq!(issue.report, None);
}

#[test]
fn default_layout_end_to_end() {
    // No configuration; the working directory's base name is "proj" and
    // the probe reports the session absent.
    let (session, plan) = resolve(None, "/home/user/proj");
    assert_eq!(session, "proj");
    assert_eq!(plan.probe.args, svec(&["has-session", "-t=proj"]));
    let issue = issue_list(plan, Some(1));
    let all = issued_args(&issue.tolerant, &issue.fatal);
    let expected = vec![
        svec(&["new-session", "-s", "proj", "-n", "Server", "-d"]),
        svec(&["new-window", "-t", "proj:1", "-n", "UI"]),
        svec(&["new-window", "-t", "proj:2", "-n", "Tests"]),
        svec(&["new-window", "-t", "proj:3", "-n", "Code"]),
        svec(&["new-window", "-t", "proj:4", "-n", "Zsh"]),
        svec(&["select-window", "-t", "proj:0.0"]),
        svec(&["attach", "-t", "proj"]),
    ];
    assert_eq!(all, expected);
}

#[test]
fn configured_layout_end_to_end() {
    // One window named "editor" running `vim .` in /src, selected; the
    // probe reports the session absent.
    let config = Config {
        session: "dev".to_string(),
        windows: vec![window("editor", &["vim ."], "/src", true)],
    };
    let (session, plan) = resolve(Some(&config), "/elsewhere");
    assert_eq!(session, "dev");
    let issue = issue_list(plan, Some(1));
    let all = issued_args(&issue.tolerant, &issue.fatal);
    let expected = vec![
        svec(&["new-session", "-s", "dev", "-n", "Server", "-d"]),
        svec(&["new-window", "-t", "dev:0", "-n", "editor"]),
        svec(&["send-keys", "-t", "dev:0.0", "cd /src", "C-m"]),
        svec(&["send-keys", "-t", "dev:0.0", "vim .", "C-m"]),
        svec(&["select-window", "-t", "dev:0.0"]),
        svec(&["attach", "-t", "dev"]),
    ];
    assert_eq!(all, expected);
    assert!(issue.tolerant.iter().all(|c| c.program == "tmux"));
    assert!(issue.fatal.iter().all(|c| c.program == "tmux"));
}
