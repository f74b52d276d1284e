use wp_agent::diagnosis::maintenance::LogProbe;
use wp_agent::diagnosis::maintenance::MaintenanceDiagnosis;
use wp_agent::diagnosis::performance::PerformanceDiagnosis;
use wp_agent::diagnosis::security::SecurityDiagnosis;
use wp_agent::diagnosis::system::SystemDiagnosis;
use wp_agent::diagnosis::Status;

#[test]
fn test_analyze_revisions() {
    let diagnosis = MaintenanceDiagnosis;
    let mut status = Status::Okay;
    let mut details = Vec::new();

    diagnosis.analyze_revisions("1500", &mut status, &mut details);

    assert_eq!(status, Status::Warning);
    assert!(details.iter().any(|d| d.contains("Found 1500 post revisions")));
}

#[test]
fn test_analyze_log_size() {
    let diagnosis = MaintenanceDiagnosis;
    let mut status = Status::Okay;
    let mut details = Vec::new();

    // 60 MB
    diagnosis.analyze_log_size(60 * 1024 * 1024, &mut status, &mut details);

    assert_eq!(status, Status::Warning);
    assert!(details.iter().any(|d| d.contains("debug.log found: 60.00 MB")));
}

#[test]
fn test_analyze_autoload_size_large() {
    let diagnosis = PerformanceDiagnosis;
    let mut status = Status::Okay;
    let mut details = Vec::new();
    // 2 MB in bytes
    let size_str = "2097152";

    diagnosis.analyze_autoload_size(size_str, &mut status, &mut details);

    assert_eq!(status, Status::Warning);
    assert!(details.iter().any(|d| d.contains("Autoloaded options size: 2.00 MB")));
}

#[test]
fn test_analyze_autoload_size_small() {
    let diagnosis = PerformanceDiagnosis;
    let mut status = Status::Okay;
    let mut details = Vec::new();
    let size_str = "102400";

    diagnosis.analyze_autoload_size(size_str, &mut status, &mut details);

    assert_eq!(status, Status::Okay);
}

#[test]
fn test_analyze_users_with_admin() {
    let diagnosis = SecurityDiagnosis;
    let mut status = Status::Okay;
    let mut details = Vec::new();
    let csv = "user_login\nadmin\nuser1";

    diagnosis.analyze_users(csv, &mut status, &mut details);

    assert_eq!(status, Status::Warning);
    assert!(details.iter().any(|d| d.contains("Insecure username 'admin' exists")));
    assert!(details.iter().any(|d| d.contains("Found 2 administrator(s)")));
}

#[test]
fn test_analyze_users_safe() {
    let diagnosis = SecurityDiagnosis;
    let mut status = Status::Okay;
    let mut details = Vec::new();
    let csv = "user_login\nbob\nalice";

    diagnosis.analyze_users(csv, &mut status, &mut details);

    assert_eq!(status, Status::Okay);
    assert!(!details.iter().any(|d| d.contains("Warning")));
}

#[test]
fn test_analyze_php_version_old() {
    let diagnosis = SystemDiagnosis;
    let mut status = Status::Okay;
    let mut details = Vec::new();

    diagnosis.analyze_php_version("7.4.33", &mut status, &mut details);

    assert_eq!(status, Status::Warning);
    assert!(details.iter().any(|d| d.contains("PHP version is old")));
}

#[test]
fn test_analyze_php_version_new() {
    let diagnosis = SystemDiagnosis;
    let mut status = Status::Okay;
    let mut details = Vec::new();

    diagnosis.analyze_php_version("8.2.0", &mut status, &mut details);

    assert_eq!(status, Status::Okay);
}

#[test]
fn test_status_merge_is_monotonic_maximum() {
    assert_eq!(Status::Okay.merge(Status::Okay), Status::Okay);
    assert_eq!(Status::Okay.merge(Status::Warning), Status::Warning);
    assert_eq!(Status::Warning.merge(Status::Okay), Status::Warning);
    assert_eq!(Status::Warning.merge(Status::Error), Status::Error);
    // merging never moves a status downward
    assert_eq!(Status::Error.merge(Status::Warning), Status::Error);
    assert_eq!(Status::Error.merge(Status::Okay), Status::Error);
}

#[test]
fn test_revision_threshold_boundary() {
    let diagnosis = MaintenanceDiagnosis;

    let mut status = Status::Okay;
    let mut details = Vec::new();
    diagnosis.analyze_revisions("1000", &mut status, &mut details);
    assert_eq!(status, Status::Okay);

    let mut status = Status::Okay;
    let mut details = Vec::new();
    diagnosis.analyze_revisions("1001", &mut status, &mut details);
    assert_eq!(status, Status::Warning);
}

#[test]
fn test_log_size_threshold_boundary() {
    let diagnosis = MaintenanceDiagnosis;

    // exactly 50.00 MB is fine
    let mut status = Status::Okay;
    let mut details = Vec::new();
    diagnosis.analyze_log_size(50 * 1024 * 1024, &mut status, &mut details);
    assert_eq!(status, Status::Okay);
    assert!(details.iter().any(|d| d.contains("debug.log found: 50.00 MB")));

    // one byte over the threshold warns
    let mut status = Status::Okay;
    let mut details = Vec::new();
    diagnosis.analyze_log_size(50 * 1024 * 1024 + 1, &mut status, &mut details);
    assert_eq!(status, Status::Warning);
}

#[test]
fn test_php_version_boundaries() {
    let diagnosis = SystemDiagnosis;

    let mut status = Status::Okay;
    let mut details = Vec::new();
    diagnosis.analyze_php_version("8.0.0", &mut status, &mut details);
    assert_eq!(status, Status::Okay);

    let mut status = Status::Okay;
    let mut details = Vec::new();
    diagnosis.analyze_php_version("5.6.40", &mut status, &mut details);
    assert_eq!(status, Status::Warning);
}

#[test]
fn test_unparseable_revision_count_is_zero() {
    let diagnosis = MaintenanceDiagnosis;
    let mut status = Status::Okay;
    let mut details = Vec::new();

    diagnosis.analyze_revisions("not a number", &mut status, &mut details);

    assert_eq!(status, Status::Okay);
    assert!(details.iter().any(|d| d.contains("Found 0 post revisions")));
}

#[test]
fn test_maintenance_run_assembles_sections() {
    let diagnosis = MaintenanceDiagnosis;
    let report = diagnosis.run(
        Ok("5\n".to_string()),
        Err("WP-CLI failed: no db".to_string()),
        LogProbe::Missing,
    );

    assert_eq!(report.module, "Maintenance");
    assert_eq!(report.message, "Maintenance Checked");
    assert_eq!(report.status, Status::Okay);
    assert_eq!(
        report.details,
        vec![
            "Found 5 post revisions.".to_string(),
            "No debug.log found (good).".to_string(),
        ]
    );
}

#[test]
fn test_autoload_threshold_boundary() {
    let diagnosis = PerformanceDiagnosis;

    // exactly one mebibyte is fine
    let mut status = Status::Okay;
    let mut details = Vec::new();
    diagnosis.analyze_autoload_size("1048576", &mut status, &mut details);
    assert_eq!(status, Status::Okay);
    assert!(details.iter().any(|d| d.contains("Autoloaded options size: 1.00 MB")));

    // one byte more warns
    let mut status = Status::Okay;
    let mut details = Vec::new();
    diagnosis.analyze_autoload_size("1048577", &mut status, &mut details);
    assert_eq!(status, Status::Warning);
}

#[test]
fn test_autoload_size_rounds_to_nearest_hundredth() {
    let diagnosis = PerformanceDiagnosis;

    // 102400 bytes is 0.09765625 MB and shows as 0.10 MB
    let mut status = Status::Okay;
    let mut details = Vec::new();
    diagnosis.analyze_autoload_size("102400", &mut status, &mut details);
    assert_eq!(status, Status::Okay);
    assert_eq!(details, vec!["Autoloaded options size: 0.10 MB".to_string()]);
    assert_eq!(format!("{:.2}", 102400.0 / 1048576.0), "0.10");
}

#[test]
fn test_log_size_rounds_ties_to_even() {
    let diagnosis = MaintenanceDiagnosis;

    // 131072 bytes is exactly 0.125 MB: the tie rounds to the even 0.12
    let mut status = Status::Okay;
    let mut details = Vec::new();
    diagnosis.analyze_log_size(131072, &mut status, &mut details);
    assert!(details.iter().any(|d| d.contains("debug.log found: 0.12 MB")));
    assert_eq!(format!("{:.2}", 131072.0 / 1048576.0), "0.12");

    // 393216 bytes is exactly 0.375 MB: the tie rounds to the even 0.38
    let mut status = Status::Okay;
    let mut details = Vec::new();
    diagnosis.analyze_log_size(393216, &mut status, &mut details);
    assert!(details.iter().any(|d| d.contains("debug.log found: 0.38 MB")));
    assert_eq!(format!("{:.2}", 393216.0 / 1048576.0), "0.38");
}

#[test]
fn test_security_run_assembles_sections() {
    let diagnosis = SecurityDiagnosis;
    let report = diagnosis.run(
        Err("WP-CLI failed: mismatch".to_string()),
        Ok("true\n".to_string()),
        Ok("user_login\nbob".to_string()),
    );

    assert_eq!(report.module, "Security");
    assert_eq!(report.status, Status::Warning);
    assert_eq!(
        report.details,
        vec![
            "Warning: Core checksums verification failed. Core files may be modified.".to_string(),
            "Warning: WP_DEBUG is enabled.".to_string(),
            "Found 1 administrator(s).".to_string(),
        ]
    );
}

#[test]
fn test_admin_count_note_over_three() {
    let diagnosis = SecurityDiagnosis;
    let mut status = Status::Okay;
    let mut details = Vec::new();
    let csv = "user_login\na\nb\nc\nd";

    diagnosis.analyze_users(csv, &mut status, &mut details);

    // a count note only: no status change
    assert_eq!(status, Status::Okay);
    assert!(details.iter().any(|d| d.contains("Found 4 administrator(s)")));
    assert!(details.iter().any(|d| d.contains("Note: There are 4 administrators.")));
}
