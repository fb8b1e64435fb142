use hyperfine_runner::config::{build_hyperfine_command, ConfigKey, HyperfineConfig, ParameterList};
use hyperfine_runner::decimal::render_decimal;
use hyperfine_runner::runner::{add_revisions, benchmark_args, commit_values, Invocation};

fn bare(command: &str) -> HyperfineConfig {
    HyperfineConfig {
        command: command.to_string(),
        parameter_lists: Vec::new(),
        prepare: None,
        cleanup: None,
        runs: None,
        show_output: None,
        export_json: None,
        warmup: None,
        min_runs: None,
        max_runs: None,
    }
}

fn param(name: &str, values: &str) -> ParameterList {
    ParameterList { name: name.to_string(), values: values.to_string() }
}

fn invocation(base: &str, head: &str, results: &str) -> Invocation {
    Invocation {
        config_path: "bench.json".to_string(),
        base_commit: base.to_string(),
        head_commit: head.to_string(),
        results_dir: results.to_string(),
    }
}

#[test]
fn example_run_arguments() {
    let mut config = bare("echo hi");
    config.parameter_lists.push(param("x", "1,2"));
    config.runs = Some(3);
    let args = benchmark_args(config, &invocation("aaa111", "bbb222", "/tmp/out.json"));
    assert_eq!(
        args,
        vec![
            "--parameter-list", "x", "1,2", "--parameter-list", "commit", "aaa111,bbb222",
            "--runs", "3", "--export-json", "/tmp/out.json", "echo hi",
        ]
    );
}

#[test]
fn every_setting_in_order() {
    let config = HyperfineConfig {
        command: "sleep {t}".to_string(),
        parameter_lists: vec![param("t", "0.1,0.2"), param("n", "a")],
        prepare: Some("sync".to_string()),
        cleanup: Some("rm -f x".to_string()),
        runs: Some(10),
        show_output: Some(true),
        export_json: Some("out.json".to_string()),
        warmup: Some(0),
        min_runs: Some(2),
        max_runs: Some(4294967295),
    };
    assert_eq!(
        build_hyperfine_command(&config),
        vec![
            "--parameter-list", "t", "0.1,0.2", "--parameter-list", "n", "a", "--prepare",
            "sync", "--cleanup", "rm -f x", "--runs", "10", "--show-output", "--export-json",
            "out.json", "--warmup", "0", "--min-runs", "2", "--max-runs", "4294967295",
            "sleep {t}",
        ]
    );
}

#[test]
fn commit_dimension_leads_without_own_dimensions() {
    let args = benchmark_args(bare("make"), &invocation("abc123", "def456", "r.json"));
    assert_eq!(&args[..3], &["--parameter-list", "commit", "abc123,def456"]);
    assert_eq!(args.last().unwrap(), "make");
}

#[test]
fn results_file_replaces_configured_one() {
    let mut config = bare("make");
    config.export_json = Some("old.json".to_string());
    config.warmup = Some(1);
    let args = benchmark_args(config, &invocation("a", "b", "new.json"));
    assert_eq!(
        args,
        vec![
            "--parameter-list", "commit", "a,b", "--export-json", "new.json", "--warmup", "1",
            "make",
        ]
    );
    assert!(!args.iter().any(|a| a == "old.json"));
}

#[test]
fn building_twice_gives_same_arguments() {
    let mut config = bare("ls");
    config.parameter_lists.push(param("d", "/,/tmp"));
    config.prepare = Some("true".to_string());
    add_revisions(&mut config, "x1", "x2", "res.json");
    let first = build_hyperfine_command(&config);
    let second = build_hyperfine_command(&config);
    assert_eq!(first, second);
}

#[test]
fn no_settings_no_flags() {
    let mut config = bare("run");
    config.parameter_lists.push(param("p", "1"));
    add_revisions(&mut config, "b", "h", "out");
    config.export_json = None;
    assert_eq!(
        build_hyperfine_command(&config),
        vec!["--parameter-list", "p", "1", "--parameter-list", "commit", "b,h", "run"]
    );
}

#[test]
fn show_output_false_as_unset() {
    let mut off = bare("cmd");
    off.show_output = Some(false);
    let unset = bare("cmd");
    let args = build_hyperfine_command(&off);
    assert_eq!(args, build_hyperfine_command(&unset));
    assert_eq!(args, vec!["cmd"]);
}

#[test]
fn add_revisions_appends_and_overrides() {
    let mut config = bare("c");
    config.parameter_lists.push(param("a", "1"));
    config.export_json = Some("keep-not.json".to_string());
    add_revisions(&mut config, "base", "head", "dir/out.json");
    assert_eq!(config.parameter_lists.len(), 2);
    assert_eq!(config.parameter_lists[0].name, "a");
    assert_eq!(config.parameter_lists[1].name, "commit");
    assert_eq!(config.parameter_lists[1].values, "base,head");
    assert_eq!(config.export_json.as_deref(), Some("dir/out.json"));
    assert_eq!(config.command, "c");
}

#[test]
fn commit_values_joins_with_one_comma() {
    assert_eq!(commit_values("abc123", "def456"), "abc123,def456");
    assert_eq!(commit_values("", ""), ",");
}

#[test]
fn decimal_rendering() {
    assert_eq!(render_decimal(0), "0");
    assert_eq!(render_decimal(7), "7");
    assert_eq!(render_decimal(10), "10");
    assert_eq!(render_decimal(305), "305");
    assert_eq!(render_decimal(u32::MAX), "4294967295");
}

#[test]
fn key_names_and_flags() {
    assert_eq!(ConfigKey::ParameterList.name(), "parameter-list");
    assert_eq!(ConfigKey::ShowOutput.flag(), "--show-output");
    assert_eq!(ConfigKey::ExportJson.flag(), "--export-json");
    assert_eq!(ConfigKey::MinRuns.flag(), "--min-runs");
    assert_eq!(ConfigKey::MaxRuns.flag(), "--max-runs");
    assert_eq!(ConfigKey::Command.name(), "command");
}
