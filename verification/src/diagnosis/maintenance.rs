//! The maintenance probe: post-revision count, transient timeout records,
//! and the size of the debug log.

use vstd::prelude::*;
use vstd::string::*;
use crate::diagnosis::DiagnosisReport;
use crate::diagnosis::Status;
use crate::text::dec_str;
use crate::text::mb_hundredths;
use crate::text::mb_hundredths_of;
use crate::text::parse_usize_or_zero;
use crate::text::parse_usize_or_zero_spec;
use crate::text::string_views;
use crate::text::trim;
use crate::text::trim_spec;
use crate::text::two_decimals;
use crate::text::two_decimals_string;
use crate::text::u64_to_string;

verus! {

/// The maintenance probe.
pub struct MaintenanceDiagnosis;

/// What the debug-log check found on disk: no log file, a log file of a
/// known size, or a log file whose size could not be read.
pub enum LogProbe {
    Missing,
    Size(u64),
    Unreadable,
}

/// The revision count read from the tool's trimmed output, with anything
/// unparseable counting as zero.
pub open spec fn revisions_count(count_str: Seq<char>) -> int {
    parse_usize_or_zero_spec(trim_spec(count_str))
}

/// The revision threshold: more than this many post revisions is worth a
/// warning.
pub open spec fn revisions_over_threshold(count_str: Seq<char>) -> bool {
    revisions_count(count_str) > 1000
}

/// The detail lines of the revision check.
pub open spec fn revisions_lines(count_str: Seq<char>) -> Seq<Seq<char>> {
    let counted = seq!["Found "@ + dec_str(revisions_count(count_str)) + " post revisions."@];
    if revisions_over_threshold(count_str) {
        counted + seq![
            "Warning: High number of post revisions (> 1000). Consider cleaning them."@,
        ]
    } else {
        counted
    }
}

/// The severity the revision check contributes.
pub open spec fn revisions_status(count_str: Seq<char>) -> Status {
    if revisions_over_threshold(count_str) {
        Status::Warning
    } else {
        Status::Okay
    }
}

/// The debug-log threshold: a log over fifty mebibytes is worth a warning.
pub open spec fn log_over_threshold(size_bytes: int) -> bool {
    size_bytes > 50 * 0x100000
}

/// The detail lines of the debug-log size check.
pub open spec fn log_size_lines(size_bytes: int) -> Seq<Seq<char>> {
    let sized = seq!["debug.log found: "@ + two_decimals(mb_hundredths(size_bytes)) + " MB"@];
    if log_over_threshold(size_bytes) {
        sized + seq!["Warning: debug.log is very large (> 50MB)."@]
    } else {
        sized
    }
}

/// The severity the debug-log size check contributes.
pub open spec fn log_size_status(size_bytes: int) -> Status {
    if log_over_threshold(size_bytes) {
        Status::Warning
    } else {
        Status::Okay
    }
}

impl MaintenanceDiagnosis {
    /// Counts post revisions from the tool's output and warns above the
    /// threshold; the revision count boundary sits exactly at the
    /// threshold: the threshold value itself is fine, one more warns.
    pub fn analyze_revisions(&self, count_str: &str, status: &mut Status, details: &mut Vec<
        String,
    >)
        ensures
            *final(status) == (*old(status)).spec_merge(revisions_status(count_str@)),
            string_views(final(details)@) == string_views(old(details)@) + revisions_lines(
                count_str@,
            ),
    {
        let count = parse_usize_or_zero(trim(count_str));
        let mut line = "Found ".to_owned();
        line.append(u64_to_string(count as u64).as_str());
        line.append(" post revisions.");
        let ghost before = string_views(details@);
        details.push(line);
        if count > 1000 {
            *status = (*status).merge(Status::Warning);
            details.push(
                "Warning: High number of post revisions (> 1000). Consider cleaning them.".to_owned(),
            );
        } else {
            *status = (*status).merge(Status::Okay);
        }
        proof {
            assert(string_views(details@) =~= before + revisions_lines(count_str@));
        }
    }

    /// Reports the debug log's size in mebibytes and warns above the
    /// threshold; the boundary is exact: fifty mebibytes even is fine, one
    /// byte more warns.
    pub fn analyze_log_size(&self, size_bytes: u64, status: &mut Status, details: &mut Vec<
        String,
    >)
        ensures
            *final(status) == (*old(status)).spec_merge(log_size_status(size_bytes as int)),
            string_views(final(details)@) == string_views(old(details)@) + log_size_lines(
                size_bytes as int,
            ),
    {
        let hundredths = mb_hundredths_of(size_bytes);
        let mut line = "debug.log found: ".to_owned();
        line.append(two_decimals_string(hundredths).as_str());
        line.append(" MB");
        let ghost before = string_views(details@);
        details.push(line);
        if size_bytes > 50 * 0x100000 {
            *status = (*status).merge(Status::Warning);
            details.push("Warning: debug.log is very large (> 50MB).".to_owned());
        } else {
            *status = (*status).merge(Status::Okay);
        }
        proof {
            assert(string_views(details@) =~= before + log_size_lines(size_bytes as int));
        }
    }
}

/// The detail lines of the revision sub-check for a finished or failed
/// tool invocation.
pub open spec fn revisions_section(outcome: Result<String, String>) -> Seq<Seq<char>> {
    match outcome {
        Ok(count_str) => revisions_lines(count_str@),
        Err(_) => seq!["Could not count post revisions."@],
    }
}

/// The severity the revision sub-check contributes: a failed invocation
/// degrades gracefully and contributes none.
pub open spec fn revisions_section_status(outcome: Result<String, String>) -> Status {
    match outcome {
        Ok(count_str) => revisions_status(count_str@),
        Err(_) => Status::Okay,
    }
}

/// The detail lines of the transient-records sub-check: a failed
/// invocation contributes nothing at all.
pub open spec fn transients_section(outcome: Result<String, String>) -> Seq<Seq<char>> {
    match outcome {
        Ok(count_str) => seq![
            "Found "@ + dec_str(parse_usize_or_zero_spec(trim_spec(count_str@)))
                + " transient timeout records."@,
        ],
        Err(_) => Seq::empty(),
    }
}

/// The detail lines of the debug-log sub-check.
pub open spec fn log_section(probe: LogProbe) -> Seq<Seq<char>> {
    match probe {
        LogProbe::Missing => seq!["No debug.log found (good)."@],
        LogProbe::Size(size) => log_size_lines(size as int),
        LogProbe::Unreadable => seq!["Could not read debug.log metadata."@],
    }
}

/// The severity the debug-log sub-check contributes.
pub open spec fn log_section_status(probe: LogProbe) -> Status {
    match probe {
        LogProbe::Size(size) => log_size_status(size as int),
        _ => Status::Okay,
    }
}

impl MaintenanceDiagnosis {
    /// Assembles the maintenance report from the three sub-checks'
    /// outcomes. A failing sub-check never aborts the rest: it only adds
    /// its informational line, and the status is the merge of what the
    /// sub-checks contribute.
    pub fn run(
        &self,
        revisions: Result<String, String>,
        transients: Result<String, String>,
        log: LogProbe,
    ) -> (report: DiagnosisReport)
        ensures
            report@.module == "Maintenance"@,
            report@.message == "Maintenance Checked"@,
            report@.status == Status::Okay.spec_merge(revisions_section_status(revisions))
                .spec_merge(log_section_status(log)),
            report@.details == revisions_section(revisions) + transients_section(transients)
                + log_section(log),
    {
        let mut details: Vec<String> = Vec::new();
        let mut overall_status = Status::Okay;

        match &revisions {
            Ok(count_str) => {
                self.analyze_revisions(count_str.as_str(), &mut overall_status, &mut details);
            },
            Err(_) => {
                details.push("Could not count post revisions.".to_owned());
            },
        }
        let ghost after_revisions = string_views(details@);

        match &transients {
            Ok(count_str) => {
                let count = parse_usize_or_zero(trim(count_str.as_str()));
                let mut line = "Found ".to_owned();
                line.append(u64_to_string(count as u64).as_str());
                line.append(" transient timeout records.");
                details.push(line);
            },
            Err(_) => {},
        }
        let ghost after_transients = string_views(details@);

        match &log {
            LogProbe::Missing => {
                details.push("No debug.log found (good).".to_owned());
            },
            LogProbe::Size(size) => {
                self.analyze_log_size(*size, &mut overall_status, &mut details);
            },
            LogProbe::Unreadable => {
                details.push("Could not read debug.log metadata.".to_owned());
            },
        }

        proof {
            assert(after_revisions =~= revisions_section(revisions));
            assert(after_transients =~= revisions_section(revisions) + transients_section(
                transients,
            ));
            assert(string_views(details@) =~= revisions_section(revisions) + transients_section(
                transients,
            ) + log_section(log));
        }
        let report = DiagnosisReport {
            module: "Maintenance".to_owned(),
            status: overall_status,
            message: "Maintenance Checked".to_owned(),
            details,
        };
        report
    }
}

} // verus!
