//! The network probe: external connectivity and the site's own
//! reachability.

use vstd::prelude::*;
use vstd::string::*;
use crate::diagnosis::DiagnosisReport;
use crate::diagnosis::Status;
use crate::text::string_views;
use crate::text::trim;
use crate::text::trim_spec;

verus! {

/// The network probe.
pub struct NetworkDiagnosis;

/// What fetching the site's own address produced: a response with its
/// success flag and status text, or a transport failure.
pub enum FetchOutcome {
    Response { success: bool, status_text: String },
    FetchError(String),
}

/// How far the site sub-check got: the site address could not be read, or
/// it was read and fetched.
pub enum SiteProbe {
    UrlFailed(String),
    Fetched { url: String, outcome: FetchOutcome },
}

/// The detail line of the external-connectivity sub-check.
pub open spec fn connectivity_section(outcome: Result<(), String>) -> Seq<Seq<char>> {
    match outcome {
        Ok(_) => seq!["External connectivity (Google): OK"@],
        Err(e) => seq!["External connectivity failed: "@ + e@],
    }
}

/// The severity the external-connectivity sub-check contributes.
pub open spec fn connectivity_status(outcome: Result<(), String>) -> Status {
    match outcome {
        Ok(_) => Status::Okay,
        Err(_) => Status::Warning,
    }
}

/// The detail lines of the site sub-check: the trimmed site address, then
/// the outcome of fetching it.
pub open spec fn site_section(probe: SiteProbe) -> Seq<Seq<char>> {
    match probe {
        SiteProbe::UrlFailed(e) => seq!["Could not get site URL: "@ + e@],
        SiteProbe::Fetched { url, outcome } => seq!["Site URL: "@ + trim_spec(url@)] + (
        match outcome {
            FetchOutcome::Response { success, status_text } => if success {
                seq!["Site reachable: OK ("@ + status_text@ + ")"@]
            } else {
                seq!["Site returned status: "@ + status_text@]
            },
            FetchOutcome::FetchError(e) => seq!["Site reachable failed: "@ + e@],
        }),
    }
}

/// The severity the site sub-check contributes: an unreachable site is
/// the failure that escalates this probe to an error.
pub open spec fn site_status(probe: SiteProbe) -> Status {
    match probe {
        SiteProbe::UrlFailed(_) => Status::Okay,
        SiteProbe::Fetched { url, outcome } => match outcome {
            FetchOutcome::Response { success, status_text } => if success {
                Status::Okay
            } else {
                Status::Warning
            },
            FetchOutcome::FetchError(_) => Status::Error,
        },
    }
}

impl NetworkDiagnosis {
    /// Assembles the network report from the connectivity and site
    /// sub-checks' outcomes. Lost external connectivity warns; a site that
    /// cannot be fetched at all escalates to an error.
    pub fn run(&self, connectivity: Result<(), String>, site: SiteProbe) -> (report:
        DiagnosisReport)
        ensures
            report@.module == "Network"@,
            report@.message == "Network Checked"@,
            report@.status == Status::Okay.spec_merge(connectivity_status(connectivity))
                .spec_merge(site_status(site)),
            report@.details == connectivity_section(connectivity) + site_section(site),
    {
        let mut details: Vec<String> = Vec::new();
        let mut overall_status = Status::Okay;

        match &connectivity {
            Ok(_) => {
                details.push("External connectivity (Google): OK".to_owned());
                overall_status = overall_status.merge(Status::Okay);
            },
            Err(e) => {
                overall_status = overall_status.merge(Status::Warning);
                let mut line = "External connectivity failed: ".to_owned();
                line.append(e.as_str());
                details.push(line);
            },
        }
        let ghost after_connectivity = string_views(details@);

        match &site {
            SiteProbe::UrlFailed(e) => {
                let mut line = "Could not get site URL: ".to_owned();
                line.append(e.as_str());
                details.push(line);
            },
            SiteProbe::Fetched { url, outcome } => {
                let mut line = "Site URL: ".to_owned();
                line.append(trim(url.as_str()));
                details.push(line);
                match outcome {
                    FetchOutcome::Response { success, status_text } => {
                        if *success {
                            let mut ok_line = "Site reachable: OK (".to_owned();
                            ok_line.append(status_text.as_str());
                            ok_line.append(")");
                            details.push(ok_line);
                            overall_status = overall_status.merge(Status::Okay);
                        } else {
                            overall_status = overall_status.merge(Status::Warning);
                            let mut status_line = "Site returned status: ".to_owned();
                            status_line.append(status_text.as_str());
                            details.push(status_line);
                        }
                    },
                    FetchOutcome::FetchError(e) => {
                        overall_status = overall_status.merge(Status::Error);
                        let mut err_line = "Site reachable failed: ".to_owned();
                        err_line.append(e.as_str());
                        details.push(err_line);
                    },
                }
            },
        }

        proof {
            assert(after_connectivity =~= connectivity_section(connectivity));
            assert(string_views(details@) =~= connectivity_section(connectivity) + site_section(
                site,
            ));
        }
        DiagnosisReport {
            module: "Network".to_owned(),
            status: overall_status,
            message: "Network Checked".to_owned(),
            details,
        }
    }
}

} // verus!
