use cmdprobe::classify::classify;
use cmdprobe::report::format_summary;

#[test]
fn classification_buckets_tagged_lines() {
    let report = classify("alpha installed\nbeta not installed\n");
    assert_eq!(report.installed, vec!["alpha installed"]);
    assert_eq!(report.missing, vec!["beta not installed"]);
    assert_eq!(format_summary(1, 2), "Summary: 1/2 commands installed");
}

#[test]
fn not_installed_is_never_classified_as_installed() {
    let report = classify("x not installed");
    assert_eq!(report.installed, Vec::<String>::new());
    assert_eq!(report.missing, vec!["x not installed"]);
}

#[test]
fn untagged_and_blank_lines_are_ignored() {
    let report = classify("random noise\n\n   \ngit installed");
    assert_eq!(report.installed, vec!["git installed"]);
    assert_eq!(report.missing, Vec::<String>::new());
}

#[test]
fn classified_lines_are_trimmed() {
    let report = classify("  git installed  \r\n\tjq not installed \n");
    assert_eq!(report.installed, vec!["git installed"]);
    assert_eq!(report.missing, vec!["jq not installed"]);
}

#[test]
fn classification_preserves_output_order() {
    let raw = "a installed\nb not installed\nc installed\nd not installed";
    let report = classify(raw);
    assert_eq!(report.installed, vec!["a installed", "c installed"]);
    assert_eq!(report.missing, vec!["b not installed", "d not installed"]);
}

#[test]
fn empty_output_classifies_to_nothing() {
    let report = classify("");
    assert!(report.installed.is_empty());
    assert!(report.missing.is_empty());
}
