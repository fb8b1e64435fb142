use vstd::prelude::*;

use crate::decimal::{decimal, render_decimal};

verus! {

/// One sweep dimension of a benchmark: the tool substitutes each of the
/// comma-separated `values` for `{name}` in the benchmarked command.
pub struct ParameterList {
    pub name: String,
    pub values: String,
}

/// What a `ParameterList` holds.
pub struct ParameterListView {
    pub name: Seq<char>,
    pub values: Seq<char>,
}

impl View for ParameterList {
    type V = ParameterListView;

    open spec fn view(&self) -> ParameterListView {
        ParameterListView { name: self.name@, values: self.values@ }
    }
}

/// A benchmark configuration, as read from a configuration file.
pub struct HyperfineConfig {
    pub command: String,
    pub parameter_lists: Vec<ParameterList>,
    pub prepare: Option<String>,
    pub cleanup: Option<String>,
    pub runs: Option<u32>,
    pub show_output: Option<bool>,
    pub export_json: Option<String>,
    pub warmup: Option<u32>,
    pub min_runs: Option<u32>,
    pub max_runs: Option<u32>,
}

/// What a `HyperfineConfig` holds, with its text as character sequences.
pub struct HyperfineConfigView {
    pub command: Seq<char>,
    pub parameter_lists: Seq<ParameterListView>,
    pub prepare: Option<Seq<char>>,
    pub cleanup: Option<Seq<char>>,
    pub runs: Option<u32>,
    pub show_output: Option<bool>,
    pub export_json: Option<Seq<char>>,
    pub warmup: Option<u32>,
    pub min_runs: Option<u32>,
    pub max_runs: Option<u32>,
}

pub open spec fn text_view(o: Option<String>) -> Option<Seq<char>> {
    match o {
        Some(s) => Some(s@),
        None => None,
    }
}

impl View for HyperfineConfig {
    type V = HyperfineConfigView;

    open spec fn view(&self) -> HyperfineConfigView {
        HyperfineConfigView {
            command: self.command@,
            parameter_lists: self.parameter_lists@.map_values(|p: ParameterList| p@),
            prepare: text_view(self.prepare),
            cleanup: text_view(self.cleanup),
            runs: self.runs,
            show_output: self.show_output,
            export_json: text_view(self.export_json),
            warmup: self.warmup,
            min_runs: self.min_runs,
            max_runs: self.max_runs,
        }
    }
}

/// The keys of a configuration file. Each optional setting is passed on to
/// the benchmarking tool under a flag spelled as its key.
pub enum ConfigKey {
    Command,
    ParameterList,
    Prepare,
    Cleanup,
    Runs,
    ShowOutput,
    ExportJson,
    Warmup,
    MinRuns,
    MaxRuns,
}

impl ConfigKey {
    /// The key as a configuration file spells it.
    pub open spec fn spec_name(self) -> Seq<char> {
        match self {
            ConfigKey::Command => "command"@,
            ConfigKey::ParameterList => "parameter-list"@,
            ConfigKey::Prepare => "prepare"@,
            ConfigKey::Cleanup => "cleanup"@,
            ConfigKey::Runs => "runs"@,
            ConfigKey::ShowOutput => "show-output"@,
            ConfigKey::ExportJson => "export-json"@,
            ConfigKey::Warmup => "warmup"@,
            ConfigKey::MinRuns => "min-runs"@,
            ConfigKey::MaxRuns => "max-runs"@,
        }
    }

    /// The command-line flag that carries this key's setting.
    pub open spec fn spec_flag(self) -> Seq<char> {
        "--"@ + self.spec_name()
    }

    pub fn name(&self) -> (r: &'static str)
        ensures
            r@ == self.spec_name(),
    {
        match self {
            ConfigKey::Command => "command",
            ConfigKey::ParameterList => "parameter-list",
            ConfigKey::Prepare => "prepare",
            ConfigKey::Cleanup => "cleanup",
            ConfigKey::Runs => "runs",
            ConfigKey::ShowOutput => "show-output",
            ConfigKey::ExportJson => "export-json",
            ConfigKey::Warmup => "warmup",
            ConfigKey::MinRuns => "min-runs",
            ConfigKey::MaxRuns => "max-runs",
        }
    }

    pub fn flag(&self) -> (r: String)
        ensures
            r@ == self.spec_flag(),
    {
        let r = String::from_str("--");
        r.concat(self.name())
    }
}

/// The arguments of a string vector, as character sequences.
pub open spec fn arg_views(args: Seq<String>) -> Seq<Seq<char>> {
    args.map_values(|s: String| s@)
}

/// Three arguments for each sweep dimension, in order: the flag, the name
/// and the values.
pub open spec fn parameter_args(ps: Seq<ParameterListView>) -> Seq<Seq<char>>
    decreases ps.len(),
{
    if ps.len() == 0 {
        seq![]
    } else {
        parameter_args(ps.drop_last()) + seq![
            ConfigKey::ParameterList.spec_flag(),
            ps.last().name,
            ps.last().values,
        ]
    }
}

/// A text setting: its flag and its value, or nothing when it is unset.
pub open spec fn text_args(key: ConfigKey, value: Option<Seq<char>>) -> Seq<Seq<char>> {
    match value {
        Some(v) => seq![key.spec_flag(), v],
        None => seq![],
    }
}

/// A count setting: its flag and its decimal value, or nothing when unset.
pub open spec fn count_args(key: ConfigKey, value: Option<u32>) -> Seq<Seq<char>> {
    match value {
        Some(n) => seq![key.spec_flag(), decimal(n as nat)],
        None => seq![],
    }
}

/// The bare output flag, present only when the setting is true.
pub open spec fn show_output_args(value: Option<bool>) -> Seq<Seq<char>> {
    if value == Some(true) {
        seq![ConfigKey::ShowOutput.spec_flag()]
    } else {
        seq![]
    }
}

/// The arguments that come before the results file.
pub open spec fn args_before_export(c: HyperfineConfigView) -> Seq<Seq<char>> {
    parameter_args(c.parameter_lists) + text_args(ConfigKey::Prepare, c.prepare) + text_args(
        ConfigKey::Cleanup,
        c.cleanup,
    ) + count_args(ConfigKey::Runs, c.runs) + show_output_args(c.show_output)
}

/// The arguments that come after the results file, ending with the command.
pub open spec fn args_after_export(c: HyperfineConfigView) -> Seq<Seq<char>> {
    count_args(ConfigKey::Warmup, c.warmup) + count_args(ConfigKey::MinRuns, c.min_runs)
        + count_args(ConfigKey::MaxRuns, c.max_runs) + seq![c.command]
}

/// The benchmarking tool's arguments for a configuration.
pub open spec fn command_args(c: HyperfineConfigView) -> Seq<Seq<char>> {
    args_before_export(c) + text_args(ConfigKey::ExportJson, c.export_json) + args_after_export(c)
}

fn push_arg(args: &mut Vec<String>, a: String)
    ensures
        arg_views(final(args)@) == arg_views(old(args)@).push(a@),
{
    let ghost v = a@;
    args.push(a);
    assert(arg_views(args@) =~= arg_views(old(args)@).push(v));
}

fn push_text(args: &mut Vec<String>, key: ConfigKey, value: &Option<String>)
    ensures
        arg_views(final(args)@) == arg_views(old(args)@) + text_args(key, text_view(*value)),
{
    if let Some(v) = value {
        push_arg(args, key.flag());
        push_arg(args, v.clone());
    }
    assert(arg_views(args@) =~= arg_views(old(args)@) + text_args(key, text_view(*value)));
}

fn push_count(args: &mut Vec<String>, key: ConfigKey, value: Option<u32>)
    ensures
        arg_views(final(args)@) == arg_views(old(args)@) + count_args(key, value),
{
    if let Some(n) = value {
        push_arg(args, key.flag());
        push_arg(args, render_decimal(n));
    }
    assert(arg_views(args@) =~= arg_views(old(args)@) + count_args(key, value));
}

/// The benchmarking tool's arguments for `config`, in the order that
/// `command_args` fixes. The program name is not among them.
pub fn build_hyperfine_command(config: &HyperfineConfig) -> (args: Vec<String>)
    ensures
        arg_views(args@) == command_args(config@),
{
    let ghost c = config@;
    let mut args: Vec<String> = Vec::new();
    let n = config.parameter_lists.len();
    let mut i: usize = 0;
    assert(arg_views(args@) =~= parameter_args(c.parameter_lists.take(0)));
    while i < n
        invariant
            n == config.parameter_lists@.len(),
            c == config@,
            i <= n,
            arg_views(args@) == parameter_args(c.parameter_lists.take(i as int)),
        decreases n - i,
    {
        let p = &config.parameter_lists[i];
        push_arg(&mut args, ConfigKey::ParameterList.flag());
        push_arg(&mut args, p.name.clone());
        push_arg(&mut args, p.values.clone());
        assert(c.parameter_lists.take(i + 1).drop_last() =~= c.parameter_lists.take(i as int));
        assert(c.parameter_lists.take(i + 1).last() == p@);
        i = i + 1;
        assert(arg_views(args@) =~= parameter_args(c.parameter_lists.take(i as int)));
    }
    assert(c.parameter_lists.take(n as int) =~= c.parameter_lists);
    let ghost before_options = arg_views(args@);
    push_text(&mut args, ConfigKey::Prepare, &config.prepare);
    push_text(&mut args, ConfigKey::Cleanup, &config.cleanup);
    push_count(&mut args, ConfigKey::Runs, config.runs);
    let ghost before_show = arg_views(args@);
    if config.show_output == Some(true) {
        push_arg(&mut args, ConfigKey::ShowOutput.flag());
    }
    assert(arg_views(args@) =~= before_show + show_output_args(c.show_output));
    assert(arg_views(args@) =~= args_before_export(c));
    push_text(&mut args, ConfigKey::ExportJson, &config.export_json);
    let ghost before_after = arg_views(args@);
    push_count(&mut args, ConfigKey::Warmup, config.warmup);
    push_count(&mut args, ConfigKey::MinRuns, config.min_runs);
    push_count(&mut args, ConfigKey::MaxRuns, config.max_runs);
    push_arg(&mut args, config.command.clone());
    assert(arg_views(args@) =~= before_after + args_after_export(c));
    assert(arg_views(args@) =~= command_args(c));
    args
}

} // verus!
