use cmdprobe::report::{
    evaluate_run, exit_code, format_header, format_summary, strip_missing_tag, ExitOutcome,
    RunReport,
};
use cmdprobe::CheckError;

#[test]
fn run_failure_is_fatal_and_yields_no_report() {
    match evaluate_run(false, "alpha installed\n") {
        Err(e) => assert_eq!(e, CheckError::RunFailed),
        Ok(_) => panic!("a failed run must not produce a report"),
    }
}

#[test]
fn successful_run_is_classified_and_summarized() {
    let report = match evaluate_run(true, "alpha installed\nbeta not installed\n") {
        Ok(report) => report,
        Err(_) => panic!("a successful run must produce a report"),
    };
    assert_eq!(report.installed, vec!["alpha installed"]);
    assert_eq!(report.missing, vec!["beta not installed"]);
    assert_eq!(report.summary, "Summary: 1/2 commands installed");
}

#[test]
fn zero_missing_commands_is_success() {
    let report = match evaluate_run(true, "alpha installed\n") {
        Ok(report) => report,
        Err(_) => panic!("a successful run must produce a report"),
    };
    let outcome = report.outcome();
    assert_eq!(outcome, ExitOutcome::AllInstalled);
    assert_eq!(exit_code(&outcome), 0);
}

#[test]
fn missing_commands_fail_with_their_count() {
    let report = RunReport {
        installed: vec!["a installed".to_string()],
        missing: vec!["b not installed".to_string(), "c not installed".to_string()],
        summary: "Summary: 1/3 commands installed".to_string(),
    };
    let outcome = report.outcome();
    assert_eq!(outcome, ExitOutcome::MissingCommands { count: 2 });
    assert_eq!(exit_code(&outcome), 1);
}

#[test]
fn missing_tag_is_stripped_for_display() {
    assert_eq!(strip_missing_tag("beta not installed"), "beta ");
    assert_eq!(strip_missing_tag("beta"), "beta");
    assert_eq!(strip_missing_tag("not installed"), "");
}

#[test]
fn missing_display_strips_every_line() {
    let report = RunReport {
        installed: Vec::new(),
        missing: vec!["b not installed".to_string(), "c not installed".to_string()],
        summary: String::new(),
    };
    assert_eq!(report.missing_display(), vec!["b ", "c "]);
}

#[test]
fn header_names_image_and_command_count() {
    assert_eq!(format_header("alpine", 3), "Checking image alpine for 3 commands");
}

#[test]
fn summary_handles_zero_counts() {
    assert_eq!(format_summary(0, 0), "Summary: 0/0 commands installed");
    assert_eq!(format_summary(0, 2), "Summary: 0/2 commands installed");
}
