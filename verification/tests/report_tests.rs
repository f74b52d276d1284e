use wp_agent::diagnosis::collect_reports;
use wp_agent::diagnosis::database::DatabaseDiagnosis;
use wp_agent::diagnosis::network::FetchOutcome;
use wp_agent::diagnosis::network::NetworkDiagnosis;
use wp_agent::diagnosis::network::SiteProbe;
use wp_agent::diagnosis::performance::AutoloadProbe;
use wp_agent::diagnosis::performance::PerformanceDiagnosis;
use wp_agent::diagnosis::system::DiskRecord;
use wp_agent::diagnosis::system::PhpProbe;
use wp_agent::diagnosis::system::SystemDiagnosis;
use wp_agent::diagnosis::DiagnosisReport;
use wp_agent::diagnosis::Status;
use wp_agent::report::render;

fn sample_report(module: &str, status: Status, message: &str, details: &[&str]) -> DiagnosisReport {
    DiagnosisReport {
        module: module.to_string(),
        status,
        message: message.to_string(),
        details: details.iter().map(|d| d.to_string()).collect(),
    }
}

#[test]
fn test_orchestrator_isolates_failing_probe() {
    let ok_one = sample_report("Database", Status::Okay, "Database checked.", &[]);
    let ok_two = sample_report("System", Status::Warning, "System Checked", &["a line"]);
    let outcomes = vec![
        Ok(ok_one),
        Err("WP-CLI failed: crashed".to_string()),
        Ok(ok_two),
    ];

    let reports = collect_reports(outcomes);

    // one report per attempted probe, in probe order
    assert_eq!(reports.len(), 3);
    assert_eq!(reports[0].module, "Database");
    assert_eq!(reports[2].module, "System");
    // the failing probe contributes exactly one synthetic error report
    assert_eq!(reports[1].module, "Unknown");
    assert_eq!(reports[1].status, Status::Error);
    assert_eq!(reports[1].message, "Module execution failed: WP-CLI failed: crashed");
    assert!(reports[1].details.is_empty());
}

#[test]
fn test_render_is_deterministic() {
    let reports = vec![
        sample_report("Database", Status::Okay, "Database checked.", &["Check: ok"]),
        sample_report("Security", Status::Warning, "Security Checked", &[
            "Warning: WP_DEBUG is enabled.",
            "Found 2 administrator(s).",
        ]),
        sample_report("Network", Status::Error, "Network Checked", &[
            "Site reachable failed: timeout",
        ]),
    ];

    let first = render(&reports);
    let second = render(&reports);

    assert_eq!(first.as_bytes(), second.as_bytes());
}

#[test]
fn test_render_matches_expected_layout() {
    let reports = vec![
        sample_report("Database", Status::Okay, "Database checked.", &["hidden"]),
        sample_report("Plugins", Status::Warning, "Analyzed 2 plugins.", &[
            "1 plugins have updates available:",
            " - akismet (5.0)",
        ]),
    ];

    let text = render(&reports);

    let mut expected = String::new();
    expected.push_str("\n=== WP Agent Diagnosis Report ===\n");
    expected.push_str(&format!(
        "\n{:<20} | {:<10} | {}\n",
        "Module", "Status", "Message"
    ));
    expected.push_str(&format!("{:-<20}-|-{:-<10}-|-{:-<40}\n", "", "", ""));
    expected.push_str(&format!(
        "{:<20} | {:<10} | {}\n",
        "Database", "OK", "Database checked."
    ));
    expected.push_str(&format!(
        "{:<20} | {:<10} | {}\n",
        "Plugins", "WARNING", "Analyzed 2 plugins."
    ));
    expected.push_str("\n=== Details ===\n");
    // details of the clean report are omitted
    expected.push_str("\nSTATUS for Plugins:\n");
    expected.push_str(" - 1 plugins have updates available:\n");
    expected.push_str(" -  - akismet (5.0)\n");
    expected.push_str("\nPlease review the warnings/errors above.\n");

    assert_eq!(text, expected);
}

#[test]
fn test_render_all_clear_verdict() {
    let reports = vec![sample_report("Database", Status::Okay, "Database checked.", &[])];
    let text = render(&reports);
    assert!(text.ends_with("\nGreat! No issues found.\n"));
    assert!(!text.contains("STATUS for"));
}

#[test]
fn test_database_check_failure_escalates_to_error() {
    let report = DatabaseDiagnosis.run(
        Err("WP-CLI failed: corrupt".to_string()),
        Ok("Size: 12 MB\n".to_string()),
    );

    assert_eq!(report.module, "Database");
    assert_eq!(report.status, Status::Error);
    assert_eq!(
        report.details,
        vec![
            "Check Error: WP-CLI failed: corrupt".to_string(),
            "Size: Size: 12 MB".to_string(),
        ]
    );
}

#[test]
fn test_database_all_good() {
    let report = DatabaseDiagnosis.run(Ok("Success\n".to_string()), Ok("1 MB\n".to_string()));

    assert_eq!(report.status, Status::Okay);
    assert_eq!(
        report.details,
        vec!["Check: Success".to_string(), "Size: 1 MB".to_string()]
    );
}

#[test]
fn test_network_site_fetch_failure_is_error() {
    let report = NetworkDiagnosis.run(
        Ok(()),
        SiteProbe::Fetched {
            url: "https://example.com\n".to_string(),
            outcome: FetchOutcome::FetchError("timeout".to_string()),
        },
    );

    assert_eq!(report.status, Status::Error);
    assert_eq!(
        report.details,
        vec![
            "External connectivity (Google): OK".to_string(),
            "Site URL: https://example.com".to_string(),
            "Site reachable failed: timeout".to_string(),
        ]
    );
}

#[test]
fn test_network_bad_status_warns() {
    let report = NetworkDiagnosis.run(
        Err("dns failure".to_string()),
        SiteProbe::Fetched {
            url: "https://example.com".to_string(),
            outcome: FetchOutcome::Response {
                success: false,
                status_text: "503 Service Unavailable".to_string(),
            },
        },
    );

    assert_eq!(report.status, Status::Warning);
    assert!(report
        .details
        .iter()
        .any(|d| d == "Site returned status: 503 Service Unavailable"));
}

#[test]
fn test_system_disk_over_threshold_warns() {
    let disks = vec![
        DiskRecord {
            mount: "/home".to_string(),
            total: 1000,
            available: 10,
        },
        DiskRecord {
            mount: "/".to_string(),
            total: 1000,
            available: 50,
        },
    ];

    let report = SystemDiagnosis.run(disks, PhpProbe::Version("8.1.0".to_string()));

    assert_eq!(report.status, Status::Warning);
    assert_eq!(
        report.details,
        vec![
            "Disk \"/\": 95.00% used (50/1000 bytes)".to_string(),
            "Warning: Disk usage is high (>90%).".to_string(),
            "PHP Version: 8.1.0".to_string(),
        ]
    );
}

#[test]
fn test_system_disk_usage_rounds_to_nearest() {
    // 2 of 3 bytes used is 66.666...% and shows as 66.67%
    let disks = vec![DiskRecord {
        mount: "/".to_string(),
        total: 3,
        available: 1,
    }];

    let report = SystemDiagnosis.run(disks, PhpProbe::Version("8.1.0".to_string()));

    assert!(report
        .details
        .iter()
        .any(|d| d == "Disk \"/\": 66.67% used (1/3 bytes)"));
    assert_eq!(format!("{:.2}", 100.0 - (1.0 / 3.0) * 100.0), "66.67");
}

#[test]
fn test_system_no_watched_mount_noted() {
    let disks = vec![DiskRecord {
        mount: "/home".to_string(),
        total: 1000,
        available: 800,
    }];

    let report = SystemDiagnosis.run(disks, PhpProbe::CmdFailed("no tool".to_string()));

    assert_eq!(report.status, Status::Okay);
    assert_eq!(
        report.details,
        vec![
            "Could not explicitly identify /tmp mount point.".to_string(),
            "Could not retrieve PHP version info: no tool".to_string(),
        ]
    );
}

#[test]
fn test_performance_prefix_failure_degrades() {
    let report = PerformanceDiagnosis.run(
        AutoloadProbe::PrefixFailed,
        Ok("events".to_string()),
        false,
        Some(false),
    );

    assert_eq!(report.status, Status::Okay);
    assert_eq!(
        report.details,
        vec![
            "Could not determine table prefix.".to_string(),
            "Cron events checked.".to_string(),
            "No common object cache plugin detected (Redis/W3TC).".to_string(),
        ]
    );
}

#[test]
fn test_performance_autoload_warns_and_cache_found() {
    let report = PerformanceDiagnosis.run(
        AutoloadProbe::Size(Ok("2097152\n".to_string())),
        Err("no cron".to_string()),
        true,
        None,
    );

    assert_eq!(report.status, Status::Warning);
    assert_eq!(
        report.details,
        vec![
            "Autoloaded options size: 2.00 MB".to_string(),
            "Warning: Autoloaded options size is high (> 1MB).".to_string(),
            "Could not check cron events.".to_string(),
            "Redis Object Cache plugin is active.".to_string(),
        ]
    );
}
