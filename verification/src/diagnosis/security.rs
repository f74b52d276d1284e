//! The security probe: core checksum verification, debug-mode state, and
//! the administrator account audit.

use vstd::prelude::*;
use vstd::string::*;
use crate::diagnosis::DiagnosisReport;
use crate::diagnosis::Status;
use crate::text::dec_str;
use crate::text::split_lines;
use crate::text::split_lines_exec;
use crate::text::str_eq;
use crate::text::string_views;
use crate::text::trim;
use crate::text::trim_spec;
use crate::text::u64_to_string;

verus! {

/// The security probe.
pub struct SecurityDiagnosis;

/// The administrator logins in a delimited account listing: each line
/// trimmed, empty lines and the header line dropped.
pub open spec fn admin_logins(lines: Seq<Seq<char>>) -> Seq<Seq<char>>
    decreases lines.len(),
{
    if lines.len() == 0 {
        Seq::empty()
    } else {
        let login = trim_spec(lines[0]);
        let rest = admin_logins(lines.drop_first());
        if login.len() > 0 && login != "user_login"@ {
            seq![login] + rest
        } else {
            rest
        }
    }
}

/// The administrator logins of the raw listing text.
pub open spec fn admins_of(csv: Seq<char>) -> Seq<Seq<char>> {
    admin_logins(split_lines(csv))
}

/// Whether the insecure literal administrator name is among the accounts.
pub open spec fn users_has_admin(csv: Seq<char>) -> bool {
    admins_of(csv).contains("admin"@)
}

/// The detail lines of the account audit: the count, a warning for the
/// insecure name, and a note when there are many administrators.
pub open spec fn users_lines(csv: Seq<char>) -> Seq<Seq<char>> {
    let count = admins_of(csv).len() as int;
    seq!["Found "@ + dec_str(count) + " administrator(s)."@] + (if users_has_admin(csv) {
        seq!["Warning: Insecure username 'admin' exists."@]
    } else {
        Seq::empty()
    }) + (if count > 3 {
        seq!["Note: There are "@ + dec_str(count) + " administrators."@]
    } else {
        Seq::empty()
    })
}

/// The severity the account audit contributes.
pub open spec fn users_status(csv: Seq<char>) -> Status {
    if users_has_admin(csv) {
        Status::Warning
    } else {
        Status::Okay
    }
}

impl SecurityDiagnosis {
    /// Audits the administrator listing: counts the accounts, warns when
    /// the literal insecure name is present, and notes when there are more
    /// than three administrators (a note only, with no status change).
    pub fn analyze_users(&self, csv_output: &str, status: &mut Status, details: &mut Vec<
        String,
    >)
        ensures
            *final(status) == (*old(status)).spec_merge(users_status(csv_output@)),
            string_views(final(details)@) == string_views(old(details)@) + users_lines(
                csv_output@,
            ),
    {
        let lines = split_lines_exec(csv_output);
        let ghost all = lines@.map_values(|l: String| l@);
        let n = lines.len();
        let mut count: usize = 0;
        let mut has_admin = false;
        let ghost mut collected = Seq::<Seq<char>>::empty();
        let mut i: usize = 0;
        proof {
            assert(all.skip(0) =~= all);
            assert(admin_logins(all) =~= collected + admin_logins(all.skip(0)));
        }
        while i < n
            invariant
                n == all.len(),
                n == lines@.len(),
                all == lines@.map_values(|l: String| l@),
                i <= n,
                admin_logins(all) =~= collected + admin_logins(all.skip(i as int)),
                count == collected.len(),
                count <= i,
                has_admin == collected.contains("admin"@),
            decreases n - i,
        {
            let ghost t = all.skip(i as int);
            proof {
                assert(t.drop_first() =~= all.skip(i as int + 1));
                assert(t[0] == all[i as int]);
                assert(all[i as int] == lines@[i as int]@);
            }
            let login = trim(lines[i].as_str());
            let keep = login.unicode_len() > 0 && !str_eq(login, "user_login");
            if keep {
                count = count + 1;
                if str_eq(login, "admin") {
                    has_admin = true;
                }
                proof {
                    let kept = collected + seq![login@];
                    assert(kept.contains("admin"@) == (collected.contains("admin"@) || login@
                        == "admin"@)) by {
                        if collected.contains("admin"@) {
                            let w = choose|k: int|
                                0 <= k < collected.len() && collected[k] == "admin"@;
                            assert(kept[w] == "admin"@);
                        }
                        if login@ == "admin"@ {
                            assert(kept[collected.len() as int] == "admin"@);
                        }
                        if kept.contains("admin"@) {
                            let w = choose|k: int| 0 <= k < kept.len() && kept[k] == "admin"@;
                            if w < collected.len() {
                                assert(collected[w] == "admin"@);
                            } else {
                                assert(login@ == "admin"@);
                            }
                        }
                    }
                    assert(collected + seq![login@] + admin_logins(all.skip(i as int + 1))
                        =~= collected + (seq![login@] + admin_logins(all.skip(i as int + 1))));
                    collected = kept;
                }
            }
            i = i + 1;
        }
        proof {
            assert(all.skip(n as int) =~= Seq::<Seq<char>>::empty());
            assert(collected + Seq::<Seq<char>>::empty() =~= collected);
            assert(collected =~= admins_of(csv_output@));
        }

        let ghost before = string_views(details@);
        let mut line = "Found ".to_owned();
        line.append(u64_to_string(count as u64).as_str());
        line.append(" administrator(s).");
        details.push(line);
        if has_admin {
            *status = (*status).merge(Status::Warning);
            details.push("Warning: Insecure username 'admin' exists.".to_owned());
        } else {
            *status = (*status).merge(Status::Okay);
        }
        if count > 3 {
            let mut note = "Note: There are ".to_owned();
            note.append(u64_to_string(count as u64).as_str());
            note.append(" administrators.");
            details.push(note);
        }
        proof {
            assert(string_views(details@) =~= before + users_lines(csv_output@));
        }
    }
}

/// The detail line of the checksum sub-check, whose failure warns that
/// core files may have been modified.
pub open spec fn checksums_section(outcome: Result<String, String>) -> Seq<Seq<char>> {
    match outcome {
        Ok(_) => seq!["Core checksums verified."@],
        Err(_) => seq![
            "Warning: Core checksums verification failed. Core files may be modified."@,
        ],
    }
}

/// The severity the checksum sub-check contributes.
pub open spec fn checksums_status(outcome: Result<String, String>) -> Status {
    match outcome {
        Ok(_) => Status::Okay,
        Err(_) => Status::Warning,
    }
}

/// Whether a configuration read reports debug mode as enabled.
pub open spec fn debug_enabled(output: Seq<char>) -> bool {
    trim_spec(output) == "true"@ || trim_spec(output) == "1"@
}

/// The detail line of the debug-mode sub-check.
pub open spec fn debug_section(outcome: Result<String, String>) -> Seq<Seq<char>> {
    match outcome {
        Ok(output) => if debug_enabled(output@) {
            seq!["Warning: WP_DEBUG is enabled."@]
        } else {
            seq!["WP_DEBUG is disabled."@]
        },
        Err(_) => seq!["Could not check WP_DEBUG status."@],
    }
}

/// The severity the debug-mode sub-check contributes.
pub open spec fn debug_section_status(outcome: Result<String, String>) -> Status {
    match outcome {
        Ok(output) => if debug_enabled(output@) {
            Status::Warning
        } else {
            Status::Okay
        },
        Err(_) => Status::Okay,
    }
}

/// The detail lines of the account-audit sub-check.
pub open spec fn users_section(outcome: Result<String, String>) -> Seq<Seq<char>> {
    match outcome {
        Ok(output) => users_lines(output@),
        Err(_) => seq!["Could not list users."@],
    }
}

/// The severity the account-audit sub-check contributes.
pub open spec fn users_section_status(outcome: Result<String, String>) -> Status {
    match outcome {
        Ok(output) => users_status(output@),
        Err(_) => Status::Okay,
    }
}

impl SecurityDiagnosis {
    /// Assembles the security report from the three sub-checks' outcomes.
    /// A failing sub-check never aborts the rest, and the status is the
    /// merge of what the sub-checks contribute.
    pub fn run(
        &self,
        checksums: Result<String, String>,
        debug: Result<String, String>,
        users: Result<String, String>,
    ) -> (report: DiagnosisReport)
        ensures
            report@.module == "Security"@,
            report@.message == "Security Checked"@,
            report@.status == Status::Okay.spec_merge(checksums_status(checksums)).spec_merge(
                debug_section_status(debug),
            ).spec_merge(users_section_status(users)),
            report@.details == checksums_section(checksums) + debug_section(debug)
                + users_section(users),
    {
        let mut details: Vec<String> = Vec::new();
        let mut overall_status = Status::Okay;

        match &checksums {
            Ok(_) => {
                details.push("Core checksums verified.".to_owned());
                overall_status = overall_status.merge(Status::Okay);
            },
            Err(_) => {
                overall_status = overall_status.merge(Status::Warning);
                details.push(
                    "Warning: Core checksums verification failed. Core files may be modified.".to_owned(),
                );
            },
        }
        let ghost after_checksums = string_views(details@);

        match &debug {
            Ok(output) => {
                let trimmed = trim(output.as_str());
                if str_eq(trimmed, "true") || str_eq(trimmed, "1") {
                    overall_status = overall_status.merge(Status::Warning);
                    details.push("Warning: WP_DEBUG is enabled.".to_owned());
                } else {
                    overall_status = overall_status.merge(Status::Okay);
                    details.push("WP_DEBUG is disabled.".to_owned());
                }
            },
            Err(_) => {
                details.push("Could not check WP_DEBUG status.".to_owned());
            },
        }
        let ghost after_debug = string_views(details@);

        match &users {
            Ok(output) => {
                self.analyze_users(output.as_str(), &mut overall_status, &mut details);
            },
            Err(_) => {
                details.push("Could not list users.".to_owned());
            },
        }

        proof {
            assert(after_checksums =~= checksums_section(checksums));
            assert(after_debug =~= checksums_section(checksums) + debug_section(debug));
            assert(string_views(details@) =~= checksums_section(checksums) + debug_section(debug)
                + users_section(users));
        }
        DiagnosisReport {
            module: "Security".to_owned(),
            status: overall_status,
            message: "Security Checked".to_owned(),
            details,
        }
    }
}

} // verus!
