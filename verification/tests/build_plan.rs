use muxplan::config::{Config, WindowSpec};
use muxplan::digits::fmt_u64;
use muxplan::layout::{base_name, resolve, resolve_default, resolve_with_config};

fn svec(parts: &[&str]) -> Vec<String> {
    parts.iter().map(|s| s.to_string()).collect()
}

fn window(name: &str, actions: &[&str], pwd: &str, select: bool) -> WindowSpec {
    WindowSpec { name: name.to_string(), actions: svec(actions), pwd: pwd.to_string(), select }
}

#[test]
fn decimal_rendering() {
    assert_eq!(fmt_u64(0), "0");
    assert_eq!(fmt_u64(7), "7");
    assert_eq!(fmt_u64(10), "10");
    assert_eq!(fmt_u64(123), "123");
    assert_eq!(fmt_u64(u64::MAX), "18446744073709551615");
}

#[test]
fn base_name_of_paths() {
    assert_eq!(base_name("/home/proj"), "proj");
    assert_eq!(base_name("proj"), "proj");
    assert_eq!(base_name("/a/b/c"), "c");
    assert_eq!(base_name(""), "");
    assert_eq!(base_name("/a/b/"), "");
}

#[test]
fn default_plan_shape() {
    let (session, plan) = resolve_default("/home/user/proj");
    assert_eq!(session, "proj");
    assert_eq!(plan.creation.len(), 5);
    assert_eq!(plan.creation[0].program, "tmux");
    assert_eq!(
        plan.creation[0].args,
        svec(&["new-session", "-s", "proj", "-n", "Server", "-d"])
    );
    let names = ["UI", "Tests", "Code", "Zsh"];
    for (k, name) in names.iter().enumerate() {
        let cmd = &plan.creation[k + 1];
        assert_eq!(cmd.program, "tmux");
        assert_eq!(
            cmd.args,
            svec(&["new-window", "-t", &format!("proj:{}", k + 1), "-n", name])
        );
    }
    assert!(plan.directories.is_empty());
    assert!(plan.actions.is_empty());
    let select = plan.select.expect("default plan selects a window");
    assert_eq!(select.args, svec(&["select-window", "-t", "proj:0.0"]));
    assert_eq!(plan.attach.args, svec(&["attach", "-t", "proj"]));
    assert_eq!(plan.probe.args, svec(&["has-session", "-t=proj"]));
}

#[test]
fn configured_plan_counts_and_targets() {
    let config = Config {
        session: "work".to_string(),
        windows: vec![
            window("one", &["a1", "a2"], "/p1", false),
            window("two", &[], "/p2", false),
            window("three", &["b1", "b2", "b3"], "/p3", false),
        ],
    };
    let (session, plan) = resolve_with_config(&config);
    assert_eq!(session, "work");
    // One session creation plus one window creation per spec.
    assert_eq!(plan.creation.len(), 4);
    // One directory change per spec, one action command per declared action.
    assert_eq!(plan.directories.len(), 3);
    assert_eq!(plan.actions.len(), 5);
    for i in 0..3 {
        let win = &plan.creation[i + 1];
        assert_eq!(win.args[1], "-t");
        assert_eq!(win.args[2], format!("work:{}", i));
        assert_eq!(win.args[4], config.windows[i].name);
        let dir = &plan.directories[i];
        assert_eq!(dir.args[0], "send-keys");
        assert_eq!(dir.args[2], format!("work:{}.0", i));
        assert_eq!(dir.args[3], format!("cd {}", config.windows[i].pwd));
        assert_eq!(dir.args[4], "C-m");
    }
    // Actions are ordered by window, then by action index, each aimed at
    // its window's pane.
    let expected: Vec<(usize, &str)> =
        vec![(0, "a1"), (0, "a2"), (2, "b1"), (2, "b2"), (2, "b3")];
    for (k, (win, line)) in expected.iter().enumerate() {
        let act = &plan.actions[k];
        assert_eq!(act.args[0], "send-keys");
        assert_eq!(act.args[2], format!("work:{}.0", win));
        assert_eq!(act.args[3], *line);
        assert_eq!(act.args[4], "C-m");
    }
    assert!(plan.select.is_none());
}

#[test]
fn select_flag_rules() {
    // No flagged window: no selection.
    let none = Config {
        session: "s".to_string(),
        windows: vec![window("w0", &[], "/", false), window("w1", &[], "/", false)],
    };
    assert!(resolve_with_config(&none).1.select.is_none());

    // Exactly one flagged window: its pane is targeted.
    let one = Config {
        session: "s".to_string(),
        windows: vec![window("w0", &[], "/", false), window("w1", &[], "/", true)],
    };
    let select = resolve_with_config(&one).1.select.expect("one window is flagged");
    assert_eq!(select.args, ["select-window", "-t", "s:1.0"].map(String::from).to_vec());

    // Several flagged windows: the last one wins.
    let many = Config {
        session: "s".to_string(),
        windows: vec![
            window("w0", &[], "/", true),
            window("w1", &[], "/", true),
            window("w2", &[], "/", false),
        ],
    };
    let select = resolve_with_config(&many).1.select.expect("two windows are flagged");
    assert_eq!(select.args[2], "s:1.0");
}

#[test]
fn resolve_dispatches_on_config_presence() {
    let config = Config { session: "dev".to_string(), windows: vec![] };
    let (with, _) = resolve(Some(&config), "/ignored/path");
    assert_eq!(with, "dev");
    let (without, plan) = resolve(None, "/somewhere/deep/nest");
    assert_eq!(without, "nest");
    assert_eq!(plan.creation.len(), 5);
}
