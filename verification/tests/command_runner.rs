use sparrow_installer::command::classify_install_output;
use sparrow_installer::command::classify_update_output;
use sparrow_installer::command::command_spec;
use sparrow_installer::command::contains_substring;
use sparrow_installer::command::CommandError;
use sparrow_installer::command::CommandKind;
use sparrow_installer::tick::tick_elapsed;

#[test]
fn install_script_command_shape() {
    let spec = command_spec(CommandKind::InstallScript);
    assert_eq!(spec.program, "bash");
    assert_eq!(spec.args, vec!["/usr/share/hypr/end-4_installer/setup.sh".to_string()]);
    assert!(!spec.pipe_secret);
}

#[test]
fn update_command_shape_pipes_secret() {
    let spec = command_spec(CommandKind::UpdateSystem);
    assert_eq!(spec.program, "sudo");
    assert_eq!(
        spec.args,
        vec![
            "-S".to_string(),
            "bootc".to_string(),
            "update".to_string(),
            "--apply".to_string()
        ]
    );
    assert!(spec.pipe_secret);
}

#[test]
fn reboot_and_poweroff_command_shapes() {
    let reboot = command_spec(CommandKind::Reboot);
    assert_eq!(reboot.program, "systemctl");
    assert_eq!(reboot.args, vec!["reboot".to_string()]);
    assert!(!reboot.pipe_secret);
    let poweroff = command_spec(CommandKind::Poweroff);
    assert_eq!(poweroff.program, "systemctl");
    assert_eq!(poweroff.args, vec!["poweroff".to_string()]);
    assert!(!poweroff.pipe_secret);
}

#[test]
fn clean_exit_classifies_as_success() {
    assert!(classify_install_output(true, String::new()).is_ok());
    assert!(classify_update_output(true, "warning: something".to_string()).is_ok());
}

#[test]
fn install_failure_carries_error_text() {
    let r = classify_install_output(false, "setup exploded".to_string());
    match r {
        Err(CommandError::CommandFailure(text)) => assert_eq!(text, "setup exploded"),
        _ => panic!("expected a command failure"),
    }
}

#[test]
fn update_auth_failure_phrases() {
    let r = classify_update_output(false, "sudo: Sorry, try again.".to_string());
    assert!(matches!(r, Err(CommandError::AuthFailure)));
    let r = classify_update_output(false, "sudo: 1 incorrect password attempt".to_string());
    assert!(matches!(r, Err(CommandError::AuthFailure)));
}

#[test]
fn update_auth_match_is_case_sensitive() {
    let r = classify_update_output(false, "sorry, try again".to_string());
    match r {
        Err(CommandError::CommandFailure(text)) => assert_eq!(text, "sorry, try again"),
        _ => panic!("expected a command failure, not an auth failure"),
    }
}

#[test]
fn update_other_failure_carries_error_text() {
    let r = classify_update_output(false, "network unreachable".to_string());
    match r {
        Err(CommandError::CommandFailure(text)) => assert_eq!(text, "network unreachable"),
        _ => panic!("expected a command failure"),
    }
}

#[test]
fn substring_search_finds_embedded_pattern() {
    assert!(contains_substring("abc Sorry, try again xyz", "Sorry, try again"));
    assert!(contains_substring("abc", "abc"));
    assert!(contains_substring("abc", ""));
    assert!(!contains_substring("abd", "abc"));
    assert!(!contains_substring("ab", "abc"));
    assert!(!contains_substring("", "a"));
    assert!(contains_substring("aab", "ab"));
}

#[test]
fn tick_elapsed_boundaries() {
    assert!(tick_elapsed(1000, 0, 1000));
    assert!(!tick_elapsed(999, 0, 1000));
    assert!(tick_elapsed(10, 10, 0));
    // A clock reading older than the last tick never counts as elapsed.
    assert!(!tick_elapsed(5, 10, 0));
}
