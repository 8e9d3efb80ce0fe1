//! Construction of the container runtime invocation that executes the probe
//! script.  The library builds the full argument list; spawning the process
//! happens outside it.

use vstd::prelude::*;
use crate::text::str_eq;

verus! {

/// The runtime's argument list for one probe run, in order: the run
/// subcommand, automatic container removal, an override clearing the
/// image's entrypoint, the image, the dialect's interpreter, an extra
/// interactive-mode flag for zsh (so that its startup configuration, where
/// PATH is typically set, is sourced), then the script behind `-c`.
pub open spec fn runner_args_spec(image: Seq<char>, shell: Seq<char>, script: Seq<char>) -> Seq<
    Seq<char>,
> {
    let base = seq!["run"@, "--rm"@, "--entrypoint="@, image, shell];
    let flagged = if shell == "zsh"@ {
        base.push("-i"@)
    } else {
        base
    };
    flagged + seq!["-c"@, script]
}

/// Build the runtime's argument list for one probe run.
pub fn build_runner_args(image: &str, shell: &str, script: &str) -> (r: Vec<String>)
    ensures
        r.deep_view() == runner_args_spec(image@, shell@, script@),
{
    let mut r: Vec<String> = Vec::new();
    r.push(String::from_str("run"));
    r.push(String::from_str("--rm"));
    r.push(String::from_str("--entrypoint="));
    r.push(String::from_str(image));
    r.push(String::from_str(shell));
    if str_eq(shell, "zsh") {
        r.push(String::from_str("-i"));
    }
    r.push(String::from_str("-c"));
    r.push(String::from_str(script));
    proof {
        assert(r.deep_view() =~= runner_args_spec(image@, shell@, script@));
    }
    r
}

/// The name of the container runtime executable to invoke.
pub fn runtime_program() -> (r: String)
    ensures
        r@ == "docker"@,
{
    String::from_str("docker")
}

} // verus!
