//! The performance probe: autoloaded-data size, scheduled events, and the
//! object-cache plugins.

use vstd::prelude::*;
use vstd::string::*;
use crate::diagnosis::DiagnosisReport;
use crate::diagnosis::Status;
use crate::text::mb_hundredths;
use crate::text::mb_hundredths_of;
use crate::text::parse_usize_or_zero;
use crate::text::parse_usize_or_zero_spec;
use crate::text::string_views;
use crate::text::trim;
use crate::text::trim_spec;
use crate::text::two_decimals;
use crate::text::two_decimals_string;

verus! {

/// The performance probe.
pub struct PerformanceDiagnosis;

/// How far the autoloaded-data sub-check got: the table prefix could not
/// be read, or the prefix was found and the size query finished or failed.
pub enum AutoloadProbe {
    PrefixFailed,
    Size(Result<String, String>),
}

/// The query that sums the autoloaded data of the installation's options
/// table under the given (raw, untrimmed) table prefix.
pub open spec fn autoload_query_spec(prefix: Seq<char>) -> Seq<char> {
    "SELECT SUM(LENGTH(option_value)) FROM "@ + trim_spec(prefix)
        + "options WHERE autoload = 'yes'"@
}

/// Builds the autoloaded-data size query for a table prefix as the tool
/// reported it.
pub fn autoload_query(prefix: &str) -> (query: String)
    ensures
        query@ == autoload_query_spec(prefix@),
{
    let mut query = "SELECT SUM(LENGTH(option_value)) FROM ".to_owned();
    query.append(trim(prefix));
    query.append("options WHERE autoload = 'yes'");
    query
}

/// The autoloaded-data size read from the tool's trimmed output, with
/// anything unparseable counting as zero bytes.
pub open spec fn autoload_bytes(size_str: Seq<char>) -> int {
    parse_usize_or_zero_spec(trim_spec(size_str))
}

/// The autoload threshold: more than one mebibyte of autoloaded data is
/// worth a warning.
pub open spec fn autoload_over_threshold(size_str: Seq<char>) -> bool {
    autoload_bytes(size_str) > 0x100000
}

/// The detail lines of the autoloaded-data size check.
pub open spec fn autoload_lines(size_str: Seq<char>) -> Seq<Seq<char>> {
    let sized = seq![
        "Autoloaded options size: "@ + two_decimals(mb_hundredths(autoload_bytes(size_str)))
            + " MB"@,
    ];
    if autoload_over_threshold(size_str) {
        sized + seq!["Warning: Autoloaded options size is high (> 1MB)."@]
    } else {
        sized
    }
}

/// The severity the autoloaded-data size check contributes.
pub open spec fn autoload_status(size_str: Seq<char>) -> Status {
    if autoload_over_threshold(size_str) {
        Status::Warning
    } else {
        Status::Okay
    }
}

impl PerformanceDiagnosis {
    /// Reports the autoloaded-data size in mebibytes and warns above the
    /// threshold; the boundary is exact: one mebibyte even is fine, one
    /// byte more warns.
    pub fn analyze_autoload_size(&self, size_str: &str, status: &mut Status, details: &mut Vec<
        String,
    >)
        ensures
            *final(status) == (*old(status)).spec_merge(autoload_status(size_str@)),
            string_views(final(details)@) == string_views(old(details)@) + autoload_lines(
                size_str@,
            ),
    {
        let size_bytes = parse_usize_or_zero(trim(size_str));
        let hundredths = mb_hundredths_of(size_bytes as u64);
        let mut line = "Autoloaded options size: ".to_owned();
        line.append(two_decimals_string(hundredths).as_str());
        line.append(" MB");
        let ghost before = string_views(details@);
        details.push(line);
        if size_bytes > 0x100000 {
            *status = (*status).merge(Status::Warning);
            details.push("Warning: Autoloaded options size is high (> 1MB).".to_owned());
        } else {
            *status = (*status).merge(Status::Okay);
        }
        proof {
            assert(string_views(details@) =~= before + autoload_lines(size_str@));
        }
    }
}

/// The detail lines of the autoloaded-data sub-check for each outcome.
pub open spec fn autoload_section(probe: AutoloadProbe) -> Seq<Seq<char>> {
    match probe {
        AutoloadProbe::PrefixFailed => seq!["Could not determine table prefix."@],
        AutoloadProbe::Size(outcome) => match outcome {
            Ok(size_str) => autoload_lines(size_str@),
            Err(_) => seq!["Could not determine autoloaded options size."@],
        },
    }
}

/// The severity the autoloaded-data sub-check contributes.
pub open spec fn autoload_section_status(probe: AutoloadProbe) -> Status {
    match probe {
        AutoloadProbe::Size(Ok(size_str)) => autoload_status(size_str@),
        _ => Status::Okay,
    }
}

/// The detail line of the scheduled-events sub-check.
pub open spec fn cron_section(outcome: Result<String, String>) -> Seq<Seq<char>> {
    match outcome {
        Ok(_) => seq!["Cron events checked."@],
        Err(_) => seq!["Could not check cron events."@],
    }
}

/// The detail line of the object-cache sub-check: the first cache plugin
/// found active wins; the second is only consulted when the first is not
/// active.
pub open spec fn cache_section(redis_active: bool, w3tc_active: Option<bool>) -> Seq<Seq<char>> {
    if redis_active {
        seq!["Redis Object Cache plugin is active."@]
    } else if w3tc_active == Some(true) {
        seq!["W3 Total Cache is active."@]
    } else {
        seq!["No common object cache plugin detected (Redis/W3TC)."@]
    }
}

impl PerformanceDiagnosis {
    /// Assembles the performance report from the sub-checks' outcomes.
    /// Only an oversized autoload can raise the status; every other
    /// failure degrades to its informational line.
    pub fn run(
        &self,
        autoload: AutoloadProbe,
        cron: Result<String, String>,
        redis_active: bool,
        w3tc_active: Option<bool>,
    ) -> (report: DiagnosisReport)
        ensures
            report@.module == "Performance"@,
            report@.message == "Performance Checked"@,
            report@.status == Status::Okay.spec_merge(autoload_section_status(autoload)),
            report@.details == autoload_section(autoload) + cron_section(cron) + cache_section(
                redis_active,
                w3tc_active,
            ),
    {
        let mut details: Vec<String> = Vec::new();
        let mut overall_status = Status::Okay;

        match &autoload {
            AutoloadProbe::PrefixFailed => {
                details.push("Could not determine table prefix.".to_owned());
            },
            AutoloadProbe::Size(outcome) => {
                match outcome {
                    Ok(size_str) => {
                        self.analyze_autoload_size(
                            size_str.as_str(),
                            &mut overall_status,
                            &mut details,
                        );
                    },
                    Err(_) => {
                        details.push("Could not determine autoloaded options size.".to_owned());
                    },
                }
            },
        }
        let ghost after_autoload = string_views(details@);

        match &cron {
            Ok(_) => {
                details.push("Cron events checked.".to_owned());
            },
            Err(_) => {
                details.push("Could not check cron events.".to_owned());
            },
        }
        let ghost after_cron = string_views(details@);

        if redis_active {
            details.push("Redis Object Cache plugin is active.".to_owned());
        } else {
            let w3tc = match &w3tc_active {
                Some(active) => *active,
                None => false,
            };
            if w3tc {
                details.push("W3 Total Cache is active.".to_owned());
            } else {
                details.push("No common object cache plugin detected (Redis/W3TC).".to_owned());
            }
        }

        proof {
            assert(after_autoload =~= autoload_section(autoload));
            assert(after_cron =~= autoload_section(autoload) + cron_section(cron));
            assert(string_views(details@) =~= autoload_section(autoload) + cron_section(cron)
                + cache_section(redis_active, w3tc_active));
        }
        DiagnosisReport {
            module: "Performance".to_owned(),
            status: overall_status,
            message: "Performance Checked".to_owned(),
            details,
        }
    }
}

} // verus!
