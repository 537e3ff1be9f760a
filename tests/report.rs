use rtx_doctor::checks::{exit_code, find_problems, summarize};
use rtx_doctor::doctor::{Doctor, Facts};
use rtx_doctor::sections::{
    namespaced_vars, render_config_files, render_plugins, rtx_env_vars, rtx_version, shell,
    shell_command, titled_block, PluginRecord, ShellProbe,
};
use rtx_doctor::text::{decimal_string, has_prefix, path_basename};

fn plugin(name: &str, installed: bool, remote: Option<&str>, revision: Option<&str>) -> PluginRecord {
    PluginRecord {
        name: name.to_string(),
        installed,
        remote: remote.map(|s| s.to_string()),
        revision: revision.map(|s| s.to_string()),
    }
}

fn facts(plugins: Vec<PluginRecord>, latest: Option<&str>, activated: bool) -> Facts {
    Facts {
        version: "1.2.3 linux-x64".to_string(),
        shell: ShellProbe::Unknown,
        env: vec![],
        settings: "a = 1".to_string(),
        config_files: vec![],
        plugins,
        toolset: "node 18".to_string(),
        latest: latest.map(|s| s.to_string()),
        current_version: "1.2.3".to_string(),
        activated,
        colors: false,
        colors_stderr: false,
    }
}

#[test]
fn empty_registry_renders_header_only() {
    assert_eq!(render_plugins(&vec![], false), "plugins:\n");
    let problems = find_problems(&vec![], &None, "1.0.0", true, false);
    assert!(problems.is_empty());
}

#[test]
fn uninstalled_plugins_come_first_in_registry_order() {
    let ps = vec![
        plugin("b", false, None, None),
        plugin("a", true, None, None),
        plugin("c", false, None, None),
    ];
    let problems = find_problems(&ps, &Some("2.0.0".to_string()), "1.0.0", false, false);
    assert_eq!(problems.len(), 4);
    assert_eq!(problems[0], "plugin b is not installed");
    assert_eq!(problems[1], "plugin c is not installed");
    assert_eq!(problems[2], "new rtx version 2.0.0 available, currently on 1.0.0");
    assert_eq!(
        problems[3],
        "rtx is not activated, run `rtx activate` for setup instructions"
    );
}

#[test]
fn config_files_are_listed_in_reverse() {
    let paths = vec!["/a/.rtxrc".to_string(), "/a/b/.tool-versions".to_string(), "/a/b/c/.rtx.toml".to_string()];
    assert_eq!(
        render_config_files(&paths, false),
        "config files:\n  /a/b/c/.rtx.toml\n  /a/b/.tool-versions\n  /a/.rtxrc\n"
    );
    assert_eq!(render_config_files(&vec![], false), "config files:\n");
}

#[test]
fn plugin_names_padded_to_longest() {
    let ps = vec![
        plugin("abc", true, None, None),
        plugin("abcdefg", true, None, None),
        plugin("abcde", true, None, None),
    ];
    let out = render_plugins(&ps, false);
    assert_eq!(out, "plugins:\n  abc    \n  abcdefg\n  abcde  \n");
    for line in out.lines().skip(1) {
        assert_eq!(line.len(), 2 + 7);
    }
}

#[test]
fn outcome_without_problems() {
    let problems: Vec<String> = vec![];
    assert_eq!(summarize(&problems, false), "No problems found\n");
    assert_eq!(exit_code(&problems), 0);
}

#[test]
fn outcome_counts_and_pluralizes() {
    let one = vec!["x".to_string()];
    assert_eq!(summarize(&one, false), "1 problem found:\nx\n\n");
    assert_eq!(exit_code(&one), 1);
    let two = vec!["x".to_string(), "y".to_string()];
    assert_eq!(summarize(&two, false), "2 problems found:\nx\n\ny\n\n");
    assert_eq!(exit_code(&two), 1);
    let many: Vec<String> = (0..12).map(|i| format!("p{}", i)).collect();
    assert!(summarize(&many, false).starts_with("12 problems found:\n"));
}

#[test]
fn summary_line_is_red_and_bold_when_styled() {
    let one = vec!["x".to_string()];
    assert_eq!(
        summarize(&one, true),
        "\x1b[31m\x1b[1m1 problem found:\x1b[0m\nx\n\n"
    );
}

#[test]
fn unknown_revision_placeholder() {
    let ps = vec![plugin("node", true, Some("github.com/x/node"), None)];
    assert_eq!(render_plugins(&ps, false), "plugins:\n  node github.com/x/node#(unknown)\n");
    let ps = vec![plugin("node", true, Some("github.com/x/node"), Some("abc1234"))];
    assert_eq!(render_plugins(&ps, false), "plugins:\n  node github.com/x/node#abc1234\n");
}

#[test]
fn scenario_uninstalled_plugin_and_inactive_shell() {
    let ps = vec![
        plugin("node", true, Some("github.com/x/node"), None),
        plugin("go", false, None, None),
    ];
    let r = Doctor {}.report(&facts(ps, None, false));
    assert!(r.text.contains("  node github.com/x/node#(unknown)\n"));
    assert!(r.text.contains("  go  \n"));
    assert!(r.text.contains("shell:\n  (unknown)\n"));
    assert_eq!(r.problems.len(), 2);
    assert!(r.problems[0].contains("go is not installed"));
    assert!(r.problems[1].contains("rtx activate"));
    assert!(r.text.contains("2 problems found"));
    assert_eq!(r.exit_code, 1);
}

#[test]
fn scenario_empty_registry_activated() {
    let r = Doctor {}.report(&facts(vec![], None, true));
    assert!(r.text.contains("No problems found"));
    assert!(r.problems.is_empty());
    assert_eq!(r.exit_code, 0);
}

#[test]
fn full_report_layout() {
    let mut f = facts(vec![plugin("go", true, None, None)], Some("1.3.0"), true);
    f.env = vec![
        ("HOME".to_string(), "/root".to_string()),
        ("RTX_DEBUG".to_string(), "1".to_string()),
    ];
    f.config_files = vec!["/x/.tool-versions".to_string()];
    f.settings = "experimental = false\nverbose = true".to_string();
    let r = Doctor {}.report(&f);
    let expected = "rtx version:\n  1.2.3 linux-x64\n\n\
shell:\n  (unknown)\n\n\
rtx environment variables:\n  RTX_DEBUG=1\n\n\
settings:\n  experimental = false\n  verbose = true\n\n\
config files:\n  /x/.tool-versions\n\n\
plugins:\n  go\n\n\
toolset:\n  node 18\n\n\
1 problem found:\nnew rtx version 1.3.0 available, currently on 1.2.3\n\n";
    assert_eq!(r.text, expected);
    assert_eq!(r.exit_code, 1);
}

#[test]
fn env_section_filters_namespace_and_marks_none() {
    let vars = vec![
        ("RTX_A".to_string(), "1".to_string()),
        ("PATH".to_string(), "/bin".to_string()),
        ("RTX".to_string(), "x".to_string()),
        ("RTX_B".to_string(), "2".to_string()),
    ];
    assert_eq!(rtx_env_vars(&vars, false), "rtx environment variables:\n  RTX_A=1\n  RTX_B=2\n");
    assert_eq!(namespaced_vars(&vars).len(), 2);
    let none = vec![("PATH".to_string(), "/bin".to_string())];
    assert_eq!(rtx_env_vars(&none, false), "rtx environment variables:\n  (none)\n");
}

#[test]
fn section_titles_are_bold_when_styled() {
    assert_eq!(rtx_version("1.0", true), "\x1b[1mrtx version:\n\x1b[0m  1.0\n");
    assert_eq!(rtx_version("1.0", false), "rtx version:\n  1.0\n");
}

#[test]
fn activation_command_is_yellow_when_styled() {
    let problems = find_problems(&vec![], &None, "1.0.0", false, true);
    assert_eq!(
        problems[0],
        "rtx is not activated, run `\x1b[33mrtx activate\x1b[0m` for setup instructions"
    );
}

#[test]
fn titled_block_indents_non_empty_lines() {
    assert_eq!(titled_block("toolset:", "a\n\nb", false), "toolset:\n  a\n\n  b\n");
    assert_eq!(titled_block("settings:", "", false), "settings:\n\n");
}

#[test]
fn shell_section_shows_version_or_failure() {
    let ok = ShellProbe::Found { command: "/bin/zsh".to_string(), version: Ok("zsh 5.9".to_string()) };
    assert_eq!(shell(&ok, false), "shell:\n  /bin/zsh\n  zsh 5.9\n");
    let bad = ShellProbe::Found { command: "fish".to_string(), version: Err("not found".to_string()) };
    assert_eq!(shell(&bad, false), "shell:\n  fish\n  failed to get shell version: not found\n");
    assert_eq!(shell(&ShellProbe::Unknown, false), "shell:\n  (unknown)\n");
}

#[test]
fn shell_command_prefers_configured_path() {
    assert_eq!(shell_command("zsh", "/usr/local/bin/zsh"), "/usr/local/bin/zsh");
    assert_eq!(shell_command("fish", "/bin/zsh"), "fish");
    assert_eq!(shell_command("sh", "/bin/bash"), "sh");
    assert_eq!(shell_command("bash", "bash"), "bash");
}

#[test]
fn string_helpers() {
    assert_eq!(decimal_string(0), "0");
    assert_eq!(decimal_string(7), "7");
    assert_eq!(decimal_string(1203), "1203");
    assert!(has_prefix("RTX_X", "RTX_"));
    assert!(!has_prefix("RTX", "RTX_"));
    assert!(!has_prefix("XRTX_", "RTX_"));
    assert_eq!(path_basename("/usr/bin/fish"), "fish");
    assert_eq!(path_basename("fish"), "fish");
    assert_eq!(path_basename("/usr/bin/"), "");
}
