use wp_agent::wp::choose_root;
use wp_agent::wp::install_confirmation;
use wp_agent::wp::install_step;
use wp_agent::wp::interpret_output;
use wp_agent::wp::validate_entered_root;
use wp_agent::wp::InstallStep;
use wp_agent::wp::RootChoice;
use wp_agent::wp::WpCli;
use wp_agent::wp::WpError;

fn args(list: &[&str]) -> Vec<String> {
    list.iter().map(|s| s.to_string()).collect()
}

#[test]
fn test_invocation_privileged_root_owner_appends_allow_flag() {
    let wp = WpCli::new();
    let original = args(&["db", "check"]);

    let inv = wp.build_invocation(&original, true, Some(0));

    assert_eq!(inv.program, "wp");
    assert_eq!(inv.args, args(&["db", "check", "--allow-root"]));
}

#[test]
fn test_invocation_privileged_other_owner_de_escalates() {
    let wp = WpCli::new();
    let original = args(&["plugin", "list", "--format=json"]);

    let inv = wp.build_invocation(&original, true, Some(500));

    assert_eq!(inv.program, "sudo");
    assert_eq!(
        inv.args,
        args(&["-u", "#500", "--", "wp", "plugin", "list", "--format=json"])
    );
}

#[test]
fn test_invocation_unprivileged_is_unchanged() {
    let wp = WpCli::new();
    let original = args(&["core", "verify-checksums"]);

    let inv = wp.build_invocation(&original, false, Some(500));

    assert_eq!(inv.program, "wp");
    assert_eq!(inv.args, original);
}

#[test]
fn test_invocation_unknown_owner_runs_directly() {
    let wp = WpCli::new();
    let original = args(&["db", "size"]);

    let inv = wp.build_invocation(&original, true, None);

    assert_eq!(inv.program, "wp");
    assert_eq!(inv.args, original);
}

#[test]
fn test_interpret_output_success_returns_stdout() {
    let outcome = interpret_output(true, "all good\n".to_string(), "".to_string());
    assert_eq!(outcome.unwrap(), "all good\n");
}

#[test]
fn test_interpret_output_failure_carries_stderr() {
    let outcome = interpret_output(false, "partial".to_string(), "boom".to_string());
    match outcome {
        Err(WpError::Execution(msg)) => assert_eq!(msg, "WP-CLI failed: boom"),
        other => panic!("unexpected outcome: {:?}", other),
    }
}

#[test]
fn test_interpret_output_failure_falls_back_to_stdout() {
    let outcome = interpret_output(false, "only stdout text".to_string(), "".to_string());
    match outcome {
        Err(WpError::Execution(msg)) => assert_eq!(msg, "WP-CLI failed: only stdout text"),
        other => panic!("unexpected outcome: {:?}", other),
    }
}

#[test]
fn test_choose_root_nearest_marked_ancestor_wins() {
    // only the ancestor two levels up carries the marker
    let flags = vec![false, false, true, false];
    assert_eq!(choose_root(&flags, false), RootChoice::Ancestor(2));
}

#[test]
fn test_choose_root_first_of_several() {
    let flags = vec![false, true, true];
    assert_eq!(choose_root(&flags, false), RootChoice::Ancestor(1));
}

#[test]
fn test_choose_root_fallback_and_prompt() {
    let unmarked = vec![false, false];
    assert_eq!(choose_root(&unmarked, true), RootChoice::Fallback);
    assert_eq!(choose_root(&unmarked, false), RootChoice::NeedPrompt);
    assert_eq!(choose_root(&Vec::new(), false), RootChoice::NeedPrompt);
}

#[test]
fn test_validate_entered_root_rejects_unmarked_path() {
    assert!(validate_entered_root(true).is_ok());
    match validate_entered_root(false) {
        Err(WpError::Configuration(msg)) => {
            assert_eq!(msg, "Invalid WordPress path provided.")
        },
        other => panic!("unexpected outcome: {:?}", other),
    }
}

#[test]
fn test_install_decisions() {
    assert_eq!(install_step(true, true), InstallStep::AlreadyInstalled);
    assert_eq!(install_step(false, true), InstallStep::UseLocalCopy);
    assert_eq!(install_step(false, false), InstallStep::MustPrompt);
    assert!(install_confirmation(true).is_ok());
    match install_confirmation(false) {
        Err(WpError::Configuration(msg)) => {
            assert_eq!(msg, "WP-CLI is required to proceed.")
        },
        other => panic!("unexpected outcome: {:?}", other),
    }
}

#[test]
fn test_new_handle_uses_well_known_name() {
    let wp = WpCli::new();
    assert_eq!(wp.executable_path, "wp");
    assert!(wp.uses_well_known_name());
}
