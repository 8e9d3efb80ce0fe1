//! Reporting: the run header, the summary line, the display form of missing
//! commands, and the terminal outcome of a completed run.

use vstd::prelude::*;
use crate::CheckError;
use crate::classify::{classify, installed_spec, missing_spec};
use crate::text::{decimal_spec, ends_with_seq, ends_with_sub, usize_to_string};

verus! {

/// The summary line printed after classification.
pub open spec fn summary_spec(installed: nat, total: nat) -> Seq<char> {
    "Summary: "@ + decimal_spec(installed) + "/"@ + decimal_spec(total) + " commands installed"@
}

/// Render the summary line for an installed count out of a total count.
pub fn format_summary(installed_count: usize, total_count: usize) -> (r: String)
    ensures
        r@ == summary_spec(installed_count as nat, total_count as nat),
{
    let mut s = String::from_str("Summary: ");
    let inst = usize_to_string(installed_count);
    s.append(inst.as_str());
    s.append("/");
    let total = usize_to_string(total_count);
    s.append(total.as_str());
    s.append(" commands installed");
    s
}

/// The header printed before the container is launched: the image being
/// checked and the count of requested commands.
pub open spec fn header_spec(image: Seq<char>, count: nat) -> Seq<char> {
    "Checking image "@ + image + " for "@ + decimal_spec(count) + " commands"@
}

/// Render the pre-run header.
pub fn format_header(image: &str, command_count: usize) -> (r: String)
    ensures
        r@ == header_spec(image@, command_count as nat),
{
    let mut s = String::from_str("Checking image ");
    s.append(image);
    s.append(" for ");
    let count = usize_to_string(command_count);
    s.append(count.as_str());
    s.append(" commands");
    s
}

/// A missing line's display form: the trailing "not installed" tag removed.
pub open spec fn strip_missing_tag_spec(t: Seq<char>) -> Seq<char> {
    if ends_with_seq(t, "not installed"@) {
        t.subrange(0, t.len() - "not installed"@.len())
    } else {
        t
    }
}

/// Strip the trailing "not installed" tag from a line, if present.
pub fn strip_missing_tag(line: &str) -> (r: String)
    ensures
        r@ == strip_missing_tag_spec(line@),
{
    let tag = "not installed";
    let n = line.unicode_len();
    let tn = tag.unicode_len();
    if ends_with_sub(line, tag) {
        String::from_str(line.substring_char(0, n - tn))
    } else {
        String::from_str(line)
    }
}

/// The report of a successful container run: the classified output and its
/// summary line.
pub struct RunReport {
    pub installed: Vec<String>,
    pub missing: Vec<String>,
    pub summary: String,
}

/// Evaluate a finished container run.  A failure status is fatal and
/// distinct from missing commands: the captured output is not classified
/// and no summary is produced.  A successful run's output is classified
/// and summarized.
pub fn evaluate_run(run_success: bool, raw: &str) -> (r: Result<RunReport, CheckError>)
    ensures
        run_success <==> r is Ok,
        ({
            match r {
                Ok(report) => report.installed.deep_view() == installed_spec(raw@)
                    && report.missing.deep_view() == missing_spec(raw@) && report.summary@
                    == summary_spec(
                    installed_spec(raw@).len(),
                    installed_spec(raw@).len() + missing_spec(raw@).len(),
                ),
                Err(e) => e == CheckError::RunFailed,
            }
        }),
{
    if !run_success {
        return Err(CheckError::RunFailed);
    }
    let buckets = classify(raw);
    let total = buckets.installed.len() + buckets.missing.len();
    let summary = format_summary(buckets.installed.len(), total);
    Ok(RunReport { installed: buckets.installed, missing: buckets.missing, summary })
}

/// The terminal outcome of a completed, successful container run.
#[derive(Debug, PartialEq, Eq, Structural, Clone, Copy)]
pub enum ExitOutcome {
    /// Every requested command was found.
    AllInstalled,
    /// One or more commands were missing; the count is carried along.
    MissingCommands { count: usize },
}

impl RunReport {
    /// Zero missing commands is success; one or more is a failure carrying
    /// the missing count.
    pub fn outcome(&self) -> (r: ExitOutcome)
        ensures
            self.missing@.len() == 0 ==> r == ExitOutcome::AllInstalled,
            self.missing@.len() > 0 ==> r == (ExitOutcome::MissingCommands {
                count: self.missing@.len() as usize,
            }),
    {
        if self.missing.len() == 0 {
            ExitOutcome::AllInstalled
        } else {
            ExitOutcome::MissingCommands { count: self.missing.len() }
        }
    }

    /// The display forms of the missing lines, in order: each line with its
    /// trailing "not installed" tag removed.
    pub fn missing_display(&self) -> (r: Vec<String>)
        ensures
            r.deep_view() == self.missing.deep_view().map_values(
                |t: Seq<char>| strip_missing_tag_spec(t),
            ),
    {
        let mut r: Vec<String> = Vec::new();
        let mut i: usize = 0;
        while i < self.missing.len()
            invariant
                0 <= i <= self.missing@.len(),
                r.deep_view() == self.missing.deep_view().subrange(0, i as int).map_values(
                    |t: Seq<char>| strip_missing_tag_spec(t),
                ),
            decreases self.missing@.len() - i,
        {
            let ghost r_old = r.deep_view();
            let stripped = strip_missing_tag(self.missing[i].as_str());
            r.push(stripped);
            proof {
                assert(r.deep_view() =~= r_old.push(stripped@));
                assert(self.missing.deep_view()[i as int] == self.missing[i as int]@);
                assert(r.deep_view() =~= self.missing.deep_view().subrange(0, i + 1).map_values(
                    |t: Seq<char>| strip_missing_tag_spec(t),
                ));
            }
            i += 1;
        }
        proof {
            assert(self.missing.deep_view().subrange(0, self.missing@.len() as int)
                =~= self.missing.deep_view());
        }
        r
    }
}

/// The process exit code for an outcome: zero exactly on success.
pub fn exit_code(outcome: &ExitOutcome) -> (r: i32)
    ensures
        *outcome == ExitOutcome::AllInstalled ==> r == 0,
        !(*outcome == ExitOutcome::AllInstalled) ==> r == 1,
{
    match outcome {
        ExitOutcome::AllInstalled => 0,
        ExitOutcome::MissingCommands { .. } => 1,
    }
}

} // verus!
