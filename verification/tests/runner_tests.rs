use cmdprobe::runner::{build_runner_args, runtime_program};

#[test]
fn runner_args_follow_the_invocation_shape() {
    let args = build_runner_args("alpine", "sh", "SCRIPT");
    assert_eq!(args, vec!["run", "--rm", "--entrypoint=", "alpine", "sh", "-c", "SCRIPT"]);
}

#[test]
fn zsh_gets_an_interactive_flag() {
    let args = build_runner_args("alpine", "zsh", "SCRIPT");
    assert_eq!(
        args,
        vec!["run", "--rm", "--entrypoint=", "alpine", "zsh", "-i", "-c", "SCRIPT"]
    );
}

#[test]
fn nushell_gets_no_interactive_flag() {
    let args = build_runner_args("alpine", "nu", "SCRIPT");
    assert_eq!(args, vec!["run", "--rm", "--entrypoint=", "alpine", "nu", "-c", "SCRIPT"]);
}

#[test]
fn runtime_program_is_docker() {
    assert_eq!(runtime_program(), "docker");
}
