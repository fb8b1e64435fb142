use vstd::prelude::*;

use crate::config::{
    args_after_export, args_before_export, arg_views, command_args, parameter_args,
    show_output_args, text_args, ConfigKey, HyperfineConfig, HyperfineConfigView,
};
use crate::runner::{commit_binding, spec_commit_values};

verus! {

/// For a configuration without sweep dimensions of its own, a run's
/// arguments open with the revisions' dimension and end with the command.
pub proof fn lemma_commit_dimension_leads(
    c: HyperfineConfigView,
    base: Seq<char>,
    head: Seq<char>,
    results_dir: Seq<char>,
)
    requires
        c.parameter_lists.len() == 0,
    ensures
        command_args(c.with_revisions(base, head, results_dir)).take(3) == seq![
            ConfigKey::ParameterList.spec_flag(),
            "commit"@,
            spec_commit_values(base, head),
        ],
        command_args(c.with_revisions(base, head, results_dir)).last() == c.command,
{
    let p = c.with_revisions(base, head, results_dir);
    assert(p.parameter_lists.drop_last() =~= Seq::<crate::config::ParameterListView>::empty());
    assert(parameter_args(p.parameter_lists.drop_last()) =~= Seq::<Seq<char>>::empty());
    assert(p.parameter_lists.last() == commit_binding(base, head));
    let group = parameter_args(p.parameter_lists);
    assert(group =~= seq![
        ConfigKey::ParameterList.spec_flag(),
        "commit"@,
        spec_commit_values(base, head),
    ]);
    assert(command_args(p).take(3) =~= group);
}

/// A run passes on its own results file, whatever file the configuration
/// named: the flag and that path stand between the settings before it and
/// those after it, and the configured file has no effect on the arguments.
pub proof fn lemma_results_file_overrides(
    c: HyperfineConfigView,
    base: Seq<char>,
    head: Seq<char>,
    results_dir: Seq<char>,
)
    requires
        c.export_json is Some,
    ensures
        ({
            let p = c.with_revisions(base, head, results_dir);
            command_args(p) == args_before_export(p) + seq![
                ConfigKey::ExportJson.spec_flag(),
                results_dir,
            ] + args_after_export(p)
        }),
        command_args(c.with_revisions(base, head, results_dir)) == command_args(
            (HyperfineConfigView { export_json: None, ..c }).with_revisions(
                base,
                head,
                results_dir,
            ),
        ),
{
    let p = c.with_revisions(base, head, results_dir);
    assert(text_args(ConfigKey::ExportJson, p.export_json) =~= seq![
        ConfigKey::ExportJson.spec_flag(),
        results_dir,
    ]);
    assert((HyperfineConfigView { export_json: None, ..c }).with_revisions(
        base,
        head,
        results_dir,
    ) == p);
}

/// Building the arguments of one configuration twice gives the same
/// arguments.
pub proof fn lemma_build_deterministic(
    config: HyperfineConfig,
    first: Vec<String>,
    second: Vec<String>,
)
    requires
        arg_views(first@) == command_args(config@),
        arg_views(second@) == command_args(config@),
    ensures
        arg_views(first@) == arg_views(second@),
{
}

/// A configuration with no optional setting gives only its sweep
/// dimensions' arguments followed by the command.
pub proof fn lemma_no_settings_no_flags(c: HyperfineConfigView)
    requires
        c.prepare is None,
        c.cleanup is None,
        c.runs is None,
        c.show_output is None,
        c.export_json is None,
        c.warmup is None,
        c.min_runs is None,
        c.max_runs is None,
    ensures
        command_args(c) == parameter_args(c.parameter_lists) + seq![c.command],
{
    assert(command_args(c) =~= parameter_args(c.parameter_lists) + seq![c.command]);
}

/// An output setting of false gives the same arguments as none at all.
pub proof fn lemma_show_output_false_as_unset(c: HyperfineConfigView)
    requires
        c.show_output == Some(false),
    ensures
        command_args(c) == command_args(HyperfineConfigView { show_output: None, ..c }),
        show_output_args(c.show_output) == Seq::<Seq<char>>::empty(),
{
    assert(show_output_args(c.show_output) =~= Seq::<Seq<char>>::empty());
}

} // verus!
