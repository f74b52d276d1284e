//! The database probe: the storage engine's integrity check and its size.

use vstd::prelude::*;
use vstd::string::*;
use crate::diagnosis::DiagnosisReport;
use crate::diagnosis::Status;
use crate::text::string_views;
use crate::text::trim;
use crate::text::trim_spec;

verus! {

/// The database probe.
pub struct DatabaseDiagnosis;

/// The detail line of the integrity sub-check.
pub open spec fn db_check_section(outcome: Result<String, String>) -> Seq<Seq<char>> {
    match outcome {
        Ok(output) => seq!["Check: "@ + trim_spec(output@)],
        Err(e) => seq!["Check Error: "@ + e@],
    }
}

/// The severity the integrity sub-check contributes: its failure is the
/// one that escalates this probe to an error.
pub open spec fn db_check_status(outcome: Result<String, String>) -> Status {
    match outcome {
        Ok(_) => Status::Okay,
        Err(_) => Status::Error,
    }
}

/// The detail line of the size sub-check, which degrades gracefully.
pub open spec fn db_size_section(outcome: Result<String, String>) -> Seq<Seq<char>> {
    match outcome {
        Ok(output) => seq!["Size: "@ + trim_spec(output@)],
        Err(e) => seq!["Size check failed: "@ + e@],
    }
}

impl DatabaseDiagnosis {
    /// Assembles the database report from the integrity and size
    /// sub-checks' outcomes. A failed integrity check escalates the status
    /// to an error; a failed size check only adds its line.
    pub fn run(&self, check: Result<String, String>, size: Result<String, String>) -> (report:
        DiagnosisReport)
        ensures
            report@.module == "Database"@,
            report@.message == "Database checked."@,
            report@.status == Status::Okay.spec_merge(db_check_status(check)),
            report@.details == db_check_section(check) + db_size_section(size),
    {
        let mut details: Vec<String> = Vec::new();
        let mut overall_status = Status::Okay;

        match &check {
            Ok(output) => {
                let mut line = "Check: ".to_owned();
                line.append(trim(output.as_str()));
                details.push(line);
            },
            Err(e) => {
                overall_status = overall_status.merge(Status::Error);
                let mut line = "Check Error: ".to_owned();
                line.append(e.as_str());
                details.push(line);
            },
        }

        match &size {
            Ok(output) => {
                let mut line = "Size: ".to_owned();
                line.append(trim(output.as_str()));
                details.push(line);
            },
            Err(e) => {
                let mut line = "Size check failed: ".to_owned();
                line.append(e.as_str());
                details.push(line);
            },
        }

        proof {
            assert(string_views(details@) =~= db_check_section(check) + db_size_section(size));
        }
        DiagnosisReport {
            module: "Database".to_owned(),
            status: overall_status,
            message: "Database checked.".to_owned(),
            details,
        }
    }
}

} // verus!
