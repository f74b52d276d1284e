use wp_agent::diagnosis::plugins::PluginDiagnosis;
use wp_agent::diagnosis::plugins::PluginRecord;
use wp_agent::diagnosis::Status;

fn record(name: &str, status: &str, update: &str, version: &str) -> PluginRecord {
    PluginRecord {
        name: name.to_string(),
        status: status.to_string(),
        update: update.to_string(),
        version: version.to_string(),
    }
}

#[test]
fn test_analyze_plugins_updates() {
    let plugins = vec![
        record("akismet", "active", "available", "5.0"),
        record("hello", "inactive", "none", "1.7.2"),
    ];

    let diagnosis = PluginDiagnosis;
    let report = diagnosis.analyze_plugins(&plugins);

    assert_eq!(report.module, "Plugins");
    assert_eq!(report.status, Status::Warning);
    assert!(report.details.iter().any(|d| d.contains("1 plugins have updates available")));
    assert!(report.details.iter().any(|d| d.contains("inactive plugins found")));
}

#[test]
fn test_analyze_plugins_all_ok() {
    let plugins = vec![record("akismet", "active", "none", "5.0")];

    let diagnosis = PluginDiagnosis;
    let report = diagnosis.analyze_plugins(&plugins);

    assert_eq!(report.status, Status::Okay);
    assert!(report.details.iter().any(|d| d.contains("All plugins are up to date")));
}

#[test]
fn test_plugins_zero_pending_updates() {
    let plugins = vec![
        record("akismet", "active", "none", "5.0"),
        record("jetpack", "active", "none", "12.1"),
    ];

    let report = PluginDiagnosis.analyze_plugins(&plugins);

    assert_eq!(report.status, Status::Okay);
    assert_eq!(report.message, "Analyzed 2 plugins.");
    assert_eq!(report.details, vec!["All plugins are up to date.".to_string()]);
}

#[test]
fn test_plugins_one_pending_update_named_with_version() {
    let plugins = vec![
        record("akismet", "active", "available", "5.0"),
        record("jetpack", "active", "none", "12.1"),
    ];

    let report = PluginDiagnosis.analyze_plugins(&plugins);

    assert_eq!(report.status, Status::Warning);
    assert_eq!(
        report.details,
        vec![
            "1 plugins have updates available:".to_string(),
            " - akismet (5.0)".to_string(),
        ]
    );
}

#[test]
fn test_plugins_inactive_enumerated() {
    let plugins = vec![
        record("hello", "inactive", "none", "1.7.2"),
        record("dolly", "inactive", "none", "1.0"),
    ];

    let report = PluginDiagnosis.analyze_plugins(&plugins);

    assert_eq!(report.status, Status::Okay);
    assert_eq!(
        report.details,
        vec![
            "All plugins are up to date.".to_string(),
            "2 inactive plugins found (consider removing checks):".to_string(),
            " - hello".to_string(),
            " - dolly".to_string(),
        ]
    );
}

#[test]
fn test_plugins_empty_listing() {
    let plugins: Vec<PluginRecord> = Vec::new();

    let report = PluginDiagnosis.analyze_plugins(&plugins);

    assert_eq!(report.status, Status::Okay);
    assert_eq!(report.message, "Analyzed 0 plugins.");
    assert_eq!(report.details, vec!["All plugins are up to date.".to_string()]);
}
