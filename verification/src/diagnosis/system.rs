//! The system probe: disk usage of the watched mount points and the
//! runtime's version.

use vstd::prelude::*;
use vstd::string::*;
use crate::diagnosis::DiagnosisReport;
use crate::diagnosis::Status;
use crate::text::dec_str;
use crate::text::string_views;
use crate::text::two_decimals;
use crate::text::two_decimals_string;
use crate::text::u64_to_string;

verus! {

/// The system probe.
pub struct SystemDiagnosis;

/// One mounted disk as the system reports it: its mount point and its
/// total and available space in bytes.
pub struct DiskRecord {
    pub mount: String,
    pub total: u64,
    pub available: u64,
}

/// What the runtime-version sub-check produced: a version string, a
/// response that would not parse, or a failed invocation.
pub enum PhpProbe {
    Version(String),
    ParseFailed(String),
    CmdFailed(String),
}

/// Whether a mount point is one the probe watches: the temporary
/// directory's own mount, or the root mount standing in for it.
pub open spec fn is_watched_mount(mount: Seq<char>) -> bool {
    mount == "/tmp"@ || mount == "/"@
}

/// Disk usage in hundredths of a percent, rounded to the nearest
/// hundredth with ties to even, as two-decimal formatting shows it;
/// degenerate records count as unused.
pub open spec fn disk_usage_hundredths(total: int, available: int) -> int {
    if total > 0 && available <= total {
        let q = (total - available) * 10000;
        let floor = q / total;
        let rem = q % total;
        if 2 * rem > total || (2 * rem == total && floor % 2 == 1) {
            floor + 1
        } else {
            floor
        }
    } else {
        0
    }
}

/// The disk threshold: usage strictly above nine tenths of the space is
/// worth a warning.
pub open spec fn disk_over_threshold(total: int, available: int) -> bool {
    total > 0 && available <= total && (total - available) * 10 > total * 9
}

/// The usage line of one watched disk.
pub open spec fn disk_line(mount: Seq<char>, total: int, available: int) -> Seq<char> {
    "Disk \""@ + mount + "\": "@ + two_decimals(disk_usage_hundredths(total, available))
        + "% used ("@ + dec_str(available) + "/"@ + dec_str(total) + " bytes)"@
}

/// The detail lines one disk contributes: nothing for an unwatched mount,
/// its usage line for a watched one, and a warning line above the
/// threshold.
pub open spec fn one_disk_lines(disk: DiskRecord) -> Seq<Seq<char>> {
    if is_watched_mount(disk.mount@) {
        let usage = seq![disk_line(disk.mount@, disk.total as int, disk.available as int)];
        if disk_over_threshold(disk.total as int, disk.available as int) {
            usage + seq!["Warning: Disk usage is high (>90%)."@]
        } else {
            usage
        }
    } else {
        Seq::empty()
    }
}

/// The severity one disk contributes.
pub open spec fn one_disk_status(disk: DiskRecord) -> Status {
    if is_watched_mount(disk.mount@) && disk_over_threshold(
        disk.total as int,
        disk.available as int,
    ) {
        Status::Warning
    } else {
        Status::Okay
    }
}

/// The detail lines of the whole disk sub-check, in disk order.
pub open spec fn disk_lines(disks: Seq<DiskRecord>) -> Seq<Seq<char>>
    decreases disks.len(),
{
    if disks.len() == 0 {
        Seq::empty()
    } else {
        one_disk_lines(disks[0]) + disk_lines(disks.drop_first())
    }
}

/// The severity of the whole disk sub-check.
pub open spec fn disks_status(disks: Seq<DiskRecord>) -> Status
    decreases disks.len(),
{
    if disks.len() == 0 {
        Status::Okay
    } else {
        one_disk_status(disks[0]).spec_merge(disks_status(disks.drop_first()))
    }
}

/// Whether any disk mounts a watched point.
pub open spec fn any_watched(disks: Seq<DiskRecord>) -> bool {
    exists|i: int| 0 <= i < disks.len() && is_watched_mount(disks[i].mount@)
}

/// The line shown when no watched mount point was identified.
pub open spec fn no_watched_mount_lines(disks: Seq<DiskRecord>) -> Seq<Seq<char>> {
    if any_watched(disks) {
        Seq::empty()
    } else {
        seq!["Could not explicitly identify /tmp mount point."@]
    }
}

/// Whether a runtime version string belongs to an outdated major line:
/// one that starts with `5.` or `7.`.
pub open spec fn php_version_old(version: Seq<char>) -> bool {
    version.len() >= 2 && (version[0] == '5' || version[0] == '7') && version[1] == '.'
}

/// The detail lines of the runtime-version check.
pub open spec fn php_version_lines(version: Seq<char>) -> Seq<Seq<char>> {
    let shown = seq!["PHP Version: "@ + version];
    if php_version_old(version) {
        shown + seq!["Warning: PHP version is old. Recommend upgrading to 8.0+"@]
    } else {
        shown
    }
}

/// The severity the runtime-version check contributes.
pub open spec fn php_version_status(version: Seq<char>) -> Status {
    if php_version_old(version) {
        Status::Warning
    } else {
        Status::Okay
    }
}

/// The detail lines of the runtime-version sub-check for each outcome.
pub open spec fn php_section(probe: PhpProbe) -> Seq<Seq<char>> {
    match probe {
        PhpProbe::Version(v) => php_version_lines(v@),
        PhpProbe::ParseFailed(e) => seq!["Failed to parse WP info: "@ + e@],
        PhpProbe::CmdFailed(e) => seq!["Could not retrieve PHP version info: "@ + e@],
    }
}

/// The severity the runtime-version sub-check contributes: failures
/// degrade gracefully.
pub open spec fn php_section_status(probe: PhpProbe) -> Status {
    match probe {
        PhpProbe::Version(v) => php_version_status(v@),
        _ => Status::Okay,
    }
}

impl SystemDiagnosis {
    /// Flags a runtime version from an outdated major line; the boundary
    /// follows the version text alone: `8.0.0` is current, `7.4.33` and
    /// `5.6.40` are old.
    pub fn analyze_php_version(&self, version: &str, status: &mut Status, details: &mut Vec<
        String,
    >)
        ensures
            *final(status) == (*old(status)).spec_merge(php_version_status(version@)),
            string_views(final(details)@) == string_views(old(details)@) + php_version_lines(
                version@,
            ),
    {
        let mut line = "PHP Version: ".to_owned();
        line.append(version);
        let ghost before = string_views(details@);
        details.push(line);
        let old_line = version.unicode_len() >= 2 && (version.get_char(0) == '5'
            || version.get_char(0) == '7') && version.get_char(1) == '.';
        if old_line {
            *status = (*status).merge(Status::Warning);
            details.push("Warning: PHP version is old. Recommend upgrading to 8.0+".to_owned());
        } else {
            *status = (*status).merge(Status::Okay);
        }
        proof {
            assert(string_views(details@) =~= before + php_version_lines(version@));
        }
    }

    /// Assembles the system report: the usage of every watched disk in
    /// order, a note when none was found, then the runtime version.
    pub fn run(&self, disks: Vec<DiskRecord>, php: PhpProbe) -> (report: DiagnosisReport)
        ensures
            report@.module == "System"@,
            report@.message == "System Checked"@,
            report@.status == Status::Okay.spec_merge(disks_status(disks@)).spec_merge(
                php_section_status(php),
            ),
            report@.details == disk_lines(disks@) + no_watched_mount_lines(disks@)
                + php_section(php),
    {
        let mut details: Vec<String> = Vec::new();
        let mut overall_status = Status::Okay;
        let mut tmp_found = false;

        let ghost all = disks@;
        let n = disks.len();
        let mut i: usize = 0;
        proof {
            assert(all.skip(0) =~= all);
        }
        while i < n
            invariant
                n == all.len(),
                i <= n,
                disks@ == all,
                disk_lines(all) =~= string_views(details@) + disk_lines(all.skip(i as int)),
                Status::Okay.spec_merge(disks_status(all)) == overall_status.spec_merge(
                    disks_status(all.skip(i as int)),
                ),
                tmp_found == exists|k: int| 0 <= k < i && is_watched_mount(all[k].mount@),
            decreases n - i,
        {
            let ghost t = all.skip(i as int);
            let ghost before_details = string_views(details@);
            let ghost before_status = overall_status;
            proof {
                assert(t.drop_first() =~= all.skip(i as int + 1));
                assert(t[0] == all[i as int]);
            }
            let disk = &disks[i];
            let watched = crate::text::str_eq(disk.mount.as_str(), "/tmp") || crate::text::str_eq(
                disk.mount.as_str(),
                "/",
            );
            if watched {
                tmp_found = true;
                let total = disk.total;
                let available = disk.available;
                let usage_hundredths: u64 = if total > 0 && available <= total {
                    let q: u128 = ((total - available) as u128) * 10000;
                    let floor: u128 = q / (total as u128);
                    let rem: u128 = q % (total as u128);
                    proof {
                        assert((total as int - available as int) * 10000 / total as int
                            <= 10000) by (nonlinear_arith)
                            requires
                                total > 0,
                                available <= total,
                        ;
                        assert((total as int - available as int) * 10000 >= 0) by (nonlinear_arith)
                            requires
                                available <= total,
                        ;
                    }
                    if 2 * rem > total as u128 || (2 * rem == total as u128 && floor % 2 == 1) {
                        (floor + 1) as u64
                    } else {
                        floor as u64
                    }
                } else {
                    0
                };
                let mut line = "Disk \"".to_owned();
                line.append(disk.mount.as_str());
                line.append("\": ");
                line.append(two_decimals_string(usage_hundredths).as_str());
                line.append("% used (");
                line.append(u64_to_string(available).as_str());
                line.append("/");
                line.append(u64_to_string(total).as_str());
                line.append(" bytes)");
                details.push(line);
                let over = total > 0 && available <= total && ((total as u128 - available as u128)
                    * 10 > (total as u128) * 9);
                proof {
                    assert(over == disk_over_threshold(total as int, available as int));
                }
                if over {
                    overall_status = overall_status.merge(Status::Warning);
                    details.push("Warning: Disk usage is high (>90%).".to_owned());
                } else {
                    overall_status = overall_status.merge(Status::Okay);
                }
            }
            proof {
                assert(disk_lines(t) =~= one_disk_lines(all[i as int]) + disk_lines(
                    all.skip(i as int + 1),
                ));
                assert(string_views(details@) =~= before_details + one_disk_lines(all[i as int]));
                assert(disks_status(t) == one_disk_status(all[i as int]).spec_merge(
                    disks_status(all.skip(i as int + 1)),
                ));
                assert(before_status.spec_merge(disks_status(t)) == overall_status.spec_merge(
                    disks_status(all.skip(i as int + 1)),
                ));
            }
            i = i + 1;
        }
        proof {
            assert(all.skip(n as int) =~= Seq::<DiskRecord>::empty());
            assert(string_views(details@) =~= disk_lines(all));
            assert(tmp_found == any_watched(all));
        }

        if !tmp_found {
            details.push("Could not explicitly identify /tmp mount point.".to_owned());
        }
        let ghost after_disks = string_views(details@);
        proof {
            assert(after_disks =~= disk_lines(all) + no_watched_mount_lines(all));
        }

        match &php {
            PhpProbe::Version(v) => {
                self.analyze_php_version(v.as_str(), &mut overall_status, &mut details);
            },
            PhpProbe::ParseFailed(e) => {
                let mut line = "Failed to parse WP info: ".to_owned();
                line.append(e.as_str());
                details.push(line);
            },
            PhpProbe::CmdFailed(e) => {
                let mut line = "Could not retrieve PHP version info: ".to_owned();
                line.append(e.as_str());
                details.push(line);
            },
        }

        proof {
            assert(string_views(details@) =~= disk_lines(all) + no_watched_mount_lines(all)
                + php_section(php));
        }
        DiagnosisReport {
            module: "System".to_owned(),
            status: overall_status,
            message: "System Checked".to_owned(),
            details,
        }
    }
}

} // verus!
