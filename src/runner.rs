use vstd::prelude::*;

use crate::config::{
    arg_views, build_hyperfine_command, command_args, HyperfineConfig, HyperfineConfigView,
    ParameterList, ParameterListView,
};

verus! {

/// The number of command-line arguments that a run takes, the program name
/// included: configuration file, base revision, head revision, results file.
pub const ARG_COUNT: usize = 5;

/// The process status of every failed run.
pub const FAILURE_STATUS: i32 = 1;

/// The command-line arguments of a run.
pub struct Invocation {
    pub config_path: String,
    pub base_commit: String,
    pub head_commit: String,
    pub results_dir: String,
}

/// The command line held the wrong number of arguments.
pub struct UsageError {
    /// How many arguments there were, the program name included.
    pub arg_count: usize,
}

impl UsageError {
    pub fn exit_code(&self) -> (r: i32)
        ensures
            r == FAILURE_STATUS,
    {
        FAILURE_STATUS
    }
}

/// Reads the command line `args`, whose first element is the program name.
pub fn parse_invocation(args: &Vec<String>) -> (r: Result<Invocation, UsageError>)
    ensures
        r is Ok <==> args@.len() == ARG_COUNT,
        r matches Ok(inv) ==> inv.config_path@ == args@[1]@ && inv.base_commit@ == args@[2]@
            && inv.head_commit@ == args@[3]@ && inv.results_dir@ == args@[4]@,
        r matches Err(e) ==> e.arg_count == args@.len(),
{
    if args.len() != ARG_COUNT {
        return Err(UsageError { arg_count: args.len() });
    }
    Ok(
        Invocation {
            config_path: args[1].clone(),
            base_commit: args[2].clone(),
            head_commit: args[3].clone(),
            results_dir: args[4].clone(),
        },
    )
}

/// The line that tells how to call `program`.
pub open spec fn usage_text(program: Seq<char>) -> Seq<char> {
    "Usage: "@ + program + " <config.json> <base_commit> <head_commit> <results_dir>"@
}

pub fn usage_message(program: &str) -> (r: String)
    ensures
        r@ == usage_text(program@),
{
    let s = String::from_str("Usage: ");
    let s = s.concat(program);
    s.concat(" <config.json> <base_commit> <head_commit> <results_dir>")
}

/// The sweep values of the two revisions: joined by one comma.
pub open spec fn spec_commit_values(base: Seq<char>, head: Seq<char>) -> Seq<char> {
    base + ","@ + head
}

/// The sweep dimension that pairs the two revisions.
pub open spec fn commit_binding(base: Seq<char>, head: Seq<char>) -> ParameterListView {
    ParameterListView { name: "commit"@, values: spec_commit_values(base, head) }
}

impl HyperfineConfigView {
    /// The configuration with the revisions as its last sweep dimension and
    /// its results written to `results_dir`.
    pub open spec fn with_revisions(
        self,
        base: Seq<char>,
        head: Seq<char>,
        results_dir: Seq<char>,
    ) -> HyperfineConfigView {
        HyperfineConfigView {
            parameter_lists: self.parameter_lists.push(commit_binding(base, head)),
            export_json: Some(results_dir),
            ..self
        }
    }
}

pub fn commit_values(base: &str, head: &str) -> (r: String)
    ensures
        r@ == spec_commit_values(base@, head@),
{
    let s = String::from_str(base);
    let s = s.concat(",");
    s.concat(head)
}

/// Appends the revisions' sweep dimension to `config` and directs its
/// results to `results_dir`, whatever file it named before.
pub fn add_revisions(config: &mut HyperfineConfig, base: &str, head: &str, results_dir: &str)
    ensures
        final(config)@ == old(config)@.with_revisions(base@, head@, results_dir@),
{
    let p = ParameterList { name: String::from_str("commit"), values: commit_values(base, head) };
    let ghost pv = p@;
    config.parameter_lists.push(p);
    config.export_json = Some(String::from_str(results_dir));
    assert(config@.parameter_lists =~= old(config)@.parameter_lists.push(pv));
    assert(config@ == old(config)@.with_revisions(base@, head@, results_dir@));
}

/// The benchmarking tool's arguments for a run of `config` on `inv`.
pub fn benchmark_args(config: HyperfineConfig, inv: &Invocation) -> (r: Vec<String>)
    ensures
        arg_views(r@) == command_args(
            config@.with_revisions(inv.base_commit@, inv.head_commit@, inv.results_dir@),
        ),
{
    let mut config = config;
    add_revisions(
        &mut config,
        inv.base_commit.as_str(),
        inv.head_commit.as_str(),
        inv.results_dir.as_str(),
    );
    build_hyperfine_command(&config)
}

/// The status that a run ends with, once the benchmarking tool has ended.
pub fn exit_status(tool_succeeded: bool) -> (r: i32)
    ensures
        r == (if tool_succeeded { 0 } else { FAILURE_STATUS }),
{
    if tool_succeeded {
        0
    } else {
        FAILURE_STATUS
    }
}

} // verus!
