//! Rendering of the report list: a summary table, a details section for the
//! reports that are not `Ok`, and a final verdict line. Rendering is a pure
//! function of the report list, so rendering the same list twice yields
//! byte-identical text.

use vstd::prelude::*;
use vstd::string::*;
use crate::diagnosis::DiagnosisReport;
use crate::diagnosis::ReportView;
use crate::diagnosis::Status;
use crate::text::pad_right;
use crate::text::pad_right_spec;
use crate::text::string_views;

verus! {

/// The text a status shows in the summary table.
pub open spec fn status_label(status: Status) -> Seq<char> {
    match status {
        Status::Okay => "OK"@,
        Status::Warning => "WARNING"@,
        Status::Error => "ERROR"@,
    }
}

/// The table label of a status.
pub fn status_label_str(status: Status) -> (label: &'static str)
    ensures
        label@ == status_label(status),
{
    match status {
        Status::Okay => "OK",
        Status::Warning => "WARNING",
        Status::Error => "ERROR",
    }
}

/// One row of the summary table: module and status padded to their
/// columns, then the message.
pub open spec fn summary_row(report: ReportView) -> Seq<char> {
    pad_right_spec(report.module, 20) + " | "@ + pad_right_spec(status_label(report.status), 10)
        + " | "@ + report.message + "\n"@
}

/// The summary rows of all reports, in order.
pub open spec fn summary_rows(reports: Seq<ReportView>) -> Seq<char>
    decreases reports.len(),
{
    if reports.len() == 0 {
        Seq::empty()
    } else {
        summary_row(reports[0]) + summary_rows(reports.drop_first())
    }
}

/// The detail lines of one report, each indented on its own line.
pub open spec fn detail_lines(details: Seq<Seq<char>>) -> Seq<char>
    decreases details.len(),
{
    if details.len() == 0 {
        Seq::empty()
    } else {
        " - "@ + details[0] + "\n"@ + detail_lines(details.drop_first())
    }
}

/// The details block of one report: nothing for an `Ok` report, else its
/// module header followed by its detail lines verbatim.
pub open spec fn detail_block(report: ReportView) -> Seq<char> {
    if report.status == Status::Okay {
        Seq::empty()
    } else {
        "\nSTATUS for "@ + report.module + ":\n"@ + detail_lines(report.details)
    }
}

/// The details blocks of all reports, in order.
pub open spec fn detail_blocks(reports: Seq<ReportView>) -> Seq<char>
    decreases reports.len(),
{
    if reports.len() == 0 {
        Seq::empty()
    } else {
        detail_block(reports[0]) + detail_blocks(reports.drop_first())
    }
}

/// Whether every report is `Ok`.
pub open spec fn all_ok(reports: Seq<ReportView>) -> bool {
    forall|i: int| 0 <= i < reports.len() ==> reports[i].status == Status::Okay
}

/// The final verdict line: all clear, or review needed.
pub open spec fn verdict(reports: Seq<ReportView>) -> Seq<char> {
    if all_ok(reports) {
        "\nGreat! No issues found.\n"@
    } else {
        "\nPlease review the warnings/errors above.\n"@
    }
}

/// The views of a list of reports, in order.
pub open spec fn report_views(reports: Seq<DiagnosisReport>) -> Seq<ReportView> {
    reports.map_values(|r: DiagnosisReport| r@)
}

/// The whole rendered text: banner, summary table, details section, and
/// verdict, a function of the report list alone.
pub open spec fn render_spec(reports: Seq<ReportView>) -> Seq<char> {
    "\n=== WP Agent Diagnosis Report ===\n"@ + "\nModule               | Status     | Message\n"@
        + "---------------------|------------|-----------------------------------------\n"@
        + summary_rows(reports) + "\n=== Details ===\n"@ + detail_blocks(reports) + verdict(
        reports,
    )
}

/// Law: rendering is deterministic. The rendered text is a function of the
/// report views alone, so two renderings of equal report lists are
/// byte-identical.
pub proof fn lemma_render_deterministic(first: Seq<ReportView>, second: Seq<ReportView>)
    requires
        first == second,
    ensures
        render_spec(first) == render_spec(second),
{
}

/// Renders the report list: the summary table in probe order, then the
/// details of every report that is not `Ok`, then the verdict.
pub fn render(reports: &Vec<DiagnosisReport>) -> (text: String)
    ensures
        text@ == render_spec(report_views(reports@)),
{
    let ghost views = report_views(reports@);
    let mut text = "\n=== WP Agent Diagnosis Report ===\n".to_owned();
    text.append("\nModule               | Status     | Message\n");
    text.append("---------------------|------------|-----------------------------------------\n");
    let ghost header = text@;

    let n = reports.len();
    let mut i: usize = 0;
    let ghost mut rows_done = Seq::<char>::empty();
    proof {
        assert(views.skip(0) =~= views);
        assert(text@ =~= header + rows_done);
    }
    while i < n
        invariant
            n == reports@.len(),
            n == views.len(),
            views == report_views(reports@),
            i <= n,
            summary_rows(views) =~= rows_done + summary_rows(views.skip(i as int)),
            text@ =~= header + rows_done,
        decreases n - i,
    {
        let ghost t = views.skip(i as int);
        proof {
            assert(t.drop_first() =~= views.skip(i as int + 1));
            assert(t[0] == views[i as int]);
            assert(views[i as int] == reports@[i as int]@);
        }
        let report = &reports[i];
        text.append(pad_right(report.module.as_str(), 20).as_str());
        text.append(" | ");
        text.append(pad_right(status_label_str(report.status), 10).as_str());
        text.append(" | ");
        text.append(report.message.as_str());
        text.append("\n");
        proof {
            rows_done = rows_done + summary_row(views[i as int]);
            assert(text@ =~= header + rows_done);
        }
        i = i + 1;
    }
    proof {
        assert(views.skip(n as int) =~= Seq::<ReportView>::empty());
        assert(rows_done =~= summary_rows(views));
    }

    text.append("\n=== Details ===\n");
    let ghost mid = text@;

    let mut clean_bill_of_health = true;
    let mut j: usize = 0;
    let ghost mut blocks_done = Seq::<char>::empty();
    proof {
        assert(views.skip(0) =~= views);
        assert(text@ =~= mid + blocks_done);
    }
    while j < n
        invariant
            n == reports@.len(),
            n == views.len(),
            views == report_views(reports@),
            j <= n,
            detail_blocks(views) =~= blocks_done + detail_blocks(views.skip(j as int)),
            text@ =~= mid + blocks_done,
            clean_bill_of_health == (forall|k: int|
                0 <= k < j ==> views[k].status == Status::Okay),
        decreases n - j,
    {
        let ghost t = views.skip(j as int);
        proof {
            assert(t.drop_first() =~= views.skip(j as int + 1));
            assert(t[0] == views[j as int]);
            assert(views[j as int] == reports@[j as int]@);
        }
        let report = &reports[j];
        let is_ok = match report.status {
            Status::Okay => true,
            _ => false,
        };
        if !is_ok {
            clean_bill_of_health = false;
            text.append("\nSTATUS for ");
            text.append(report.module.as_str());
            text.append(":\n");

            let ghost detail_views = string_views(report.details@);
            let m = report.details.len();
            let mut d: usize = 0;
            let ghost mut lines_done = Seq::<char>::empty();
            let ghost block_head = "\nSTATUS for "@ + views[j as int].module + ":\n"@;
            proof {
                assert(detail_views.skip(0) =~= detail_views);
                assert(text@ =~= mid + blocks_done + block_head + lines_done);
            }
            while d < m
                invariant
                    m == report.details@.len(),
                    m == detail_views.len(),
                    detail_views == string_views(report.details@),
                    d <= m,
                    detail_lines(detail_views) =~= lines_done + detail_lines(
                        detail_views.skip(d as int),
                    ),
                    text@ =~= mid + blocks_done + block_head + lines_done,
                decreases m - d,
            {
                let ghost u = detail_views.skip(d as int);
                proof {
                    assert(u.drop_first() =~= detail_views.skip(d as int + 1));
                    assert(u[0] == detail_views[d as int]);
                    assert(detail_views[d as int] == report.details@[d as int]@);
                }
                text.append(" - ");
                text.append(report.details[d].as_str());
                text.append("\n");
                proof {
                    lines_done = lines_done + (" - "@ + detail_views[d as int] + "\n"@);
                    assert(text@ =~= mid + blocks_done + block_head + lines_done);
                }
                d = d + 1;
            }
            proof {
                assert(detail_views.skip(m as int) =~= Seq::<Seq<char>>::empty());
                assert(lines_done =~= detail_lines(detail_views));
                assert(detail_views =~= views[j as int].details);
                blocks_done = blocks_done + detail_block(views[j as int]);
                assert(text@ =~= mid + blocks_done);
            }
        } else {
            proof {
                assert(detail_block(views[j as int]) =~= Seq::<char>::empty());
                blocks_done = blocks_done + detail_block(views[j as int]);
                assert(text@ =~= mid + blocks_done);
            }
        }
        j = j + 1;
    }
    proof {
        assert(views.skip(n as int) =~= Seq::<ReportView>::empty());
        assert(blocks_done =~= detail_blocks(views));
        assert(clean_bill_of_health == all_ok(views));
    }

    if clean_bill_of_health {
        text.append("\nGreat! No issues found.\n");
    } else {
        text.append("\nPlease review the warnings/errors above.\n");
    }
    proof {
        assert(text@ =~= render_spec(views));
    }
    text
}

} // verus!
