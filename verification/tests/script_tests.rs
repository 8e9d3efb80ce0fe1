use cmdprobe::dialect::{shell_family, ShellFamily};
use cmdprobe::script::generate_script;

fn posix_snippet(c: &str) -> String {
    format!(
        "if command -v \"{c}\" >/dev/null 2>&1; then\n  echo \"{c} installed\"\nelse\n  echo \"{c} not installed\"\nfi"
    )
}

fn nu_snippet(c: &str) -> String {
    format!(
        "if (try {{ which {c} }} catch {{ null }}) != null {{\n  print \"{c} installed\"\n}} else {{\n  print \"{c} not installed\"\n}}"
    )
}

#[test]
fn posix_script_preserves_order_and_count() {
    let commands = vec!["git".to_string(), "curl".to_string()];
    let script = generate_script(ShellFamily::Posix, &commands);
    let expected = format!("#!/bin/sh\n{}\n{}", posix_snippet("git"), posix_snippet("curl"));
    assert_eq!(script, expected);
    assert_eq!(script.matches("command -v").count(), 2);
    let git_at = script.find("\"git\"").unwrap();
    let curl_at = script.find("\"curl\"").unwrap();
    assert!(git_at < curl_at);
}

#[test]
fn nushell_script_has_no_shebang_header() {
    let commands = vec!["git".to_string()];
    let script = generate_script(ShellFamily::Nushell, &commands);
    assert_eq!(script, nu_snippet("git"));
    assert!(!script.starts_with("#!"));
}

#[test]
fn each_command_yields_one_probe_snippet() {
    let commands = vec!["a".to_string(), "b".to_string(), "c".to_string()];
    let script = generate_script(ShellFamily::Nushell, &commands);
    assert_eq!(script.matches("which").count(), 3);
    let parts: Vec<String> =
        commands.iter().map(|c| nu_snippet(c)).collect();
    assert_eq!(script, parts.join("\n"));
}

#[test]
fn dialect_mapping_is_total() {
    assert_eq!(shell_family("nu"), ShellFamily::Nushell);
    assert_eq!(shell_family("nushell"), ShellFamily::Nushell);
    assert_eq!(shell_family("zsh"), ShellFamily::Posix);
    assert_eq!(shell_family("sh"), ShellFamily::Posix);
    assert_eq!(shell_family("bash"), ShellFamily::Posix);
    assert_eq!(shell_family(""), ShellFamily::Posix);
    assert_eq!(shell_family("no-such-shell"), ShellFamily::Posix);
}

#[test]
fn unrecognized_dialect_falls_back_to_posix_template() {
    let commands = vec!["git".to_string()];
    let family = shell_family("no-such-shell");
    let script = generate_script(family, &commands);
    assert!(script.starts_with("#!/bin/sh\n"));
    assert!(script.contains("command -v"));
}

#[test]
fn empty_command_list_yields_header_only() {
    let script = generate_script(ShellFamily::Posix, &Vec::new());
    assert_eq!(script, "#!/bin/sh\n");
    assert_eq!(generate_script(ShellFamily::Nushell, &Vec::new()), "");
}
