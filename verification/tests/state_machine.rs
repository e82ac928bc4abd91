use sparrow_installer::command::CommandError;
use sparrow_installer::command::CommandKind;
use sparrow_installer::config::Texts;
use sparrow_installer::config::Timing;
use sparrow_installer::session::App;
use sparrow_installer::session::AppState;
use sparrow_installer::session::Effect;
use sparrow_installer::session::InstallerOption;
use sparrow_installer::session::Key;
use sparrow_installer::session::StatusType;
use sparrow_installer::session::SystemAction;

fn texts() -> Texts {
    Texts {
        welcome: "Welcome".to_string(),
        confirmation_prompt: "Are you sure?".to_string(),
        processing: "Processing...".to_string(),
        dry_run_testing: "Testing...".to_string(),
        operation_success: "Operation completed successfully".to_string(),
        custom_disabled: "Custom installation is not available".to_string(),
        option_disabled: "This option is disabled".to_string(),
        password_prompt: "Enter password".to_string(),
        password_empty_error: "Password cannot be empty".to_string(),
        password_auth_failed: "Authentication failed".to_string(),
        confirm_default_install: "Install the default configuration?".to_string(),
        confirm_system_update: "Update the system?".to_string(),
        progress_installing: "Installing".to_string(),
        progress_updating: "Updating".to_string(),
        progress_rebooting: "Rebooting".to_string(),
        progress_poweroff: "Powering off".to_string(),
        dry_run_script_output: vec!["script line one".to_string(), "script line two".to_string()],
        dry_run_update_output: vec!["update line".to_string()],
        spinner_chars: vec![
            "|".to_string(),
            "/".to_string(),
            "-".to_string(),
            "\\".to_string(),
        ],
    }
}

fn timing() -> Timing {
    Timing { spinner_speed: 100, progress_bar_speed: 80, countdown_seconds: 5 }
}

fn new_app(dry_run: bool) -> App {
    App::new(dry_run, texts(), timing(), 0)
}

fn type_secret(app: &mut App, secret: &str, at: u64) {
    for c in secret.chars() {
        app.handle_key(Key::Char(c), at);
    }
}

#[test]
fn starts_at_main_menu() {
    let app = new_app(false);
    assert!(matches!(app.app_state, AppState::MainMenu));
    assert_eq!(app.selected, 0);
    assert!(!app.should_quit);
    assert!(app.status_message.is_none());
    assert!(app.progress_type.is_none());
    assert!(app.pending_operation.is_none());
    assert!(app.password_input.is_empty());
}

#[test]
fn navigation_wraps_down_past_end() {
    let mut app = new_app(false);
    for expected in [1usize, 2, 3, 0, 1] {
        app.handle_key(Key::Down, 0);
        assert_eq!(app.selected, expected);
    }
}

#[test]
fn navigation_wraps_up_from_first() {
    let mut app = new_app(false);
    app.handle_key(Key::Up, 0);
    assert_eq!(app.selected, 3);
    app.handle_key(Key::Up, 0);
    assert_eq!(app.selected, 2);
}

#[test]
fn navigation_stays_in_bounds() {
    let mut app = new_app(false);
    let moves = [true, true, false, true, false, false, false, true, false, false, true, true];
    for up in moves {
        if up {
            app.handle_key(Key::Up, 0);
        } else {
            app.handle_key(Key::Down, 0);
        }
        assert!(app.selected < app.options.len());
    }
}

#[test]
fn navigation_clears_status() {
    let mut app = new_app(false);
    app.handle_key(Key::Down, 0); // Custom
    app.handle_key(Key::Enter, 0);
    assert!(app.status_message.is_some());
    app.handle_key(Key::Down, 0);
    assert!(app.status_message.is_none());
}

#[test]
fn custom_option_reports_disabled() {
    let mut app = new_app(false);
    app.handle_key(Key::Down, 0); // Custom
    app.handle_key(Key::Enter, 0);
    assert!(matches!(app.app_state, AppState::MainMenu));
    let (message, severity) = app.status_message.clone().unwrap();
    assert_eq!(message, "Custom installation is not available");
    assert!(matches!(severity, StatusType::Fail));
}

#[test]
fn default_install_asks_for_confirmation() {
    let mut app = new_app(false);
    app.handle_key(Key::Enter, 0);
    assert!(matches!(app.app_state, AppState::Confirmation));
    assert!(app.show_confirmation);
    assert_eq!(app.confirmation_message, "Install the default configuration?");
    assert!(matches!(app.pending_operation, Some(InstallerOption::Default)));
}

#[test]
fn confirmation_cancel_discards_pending() {
    let mut app = new_app(false);
    app.handle_key(Key::Enter, 0);
    app.handle_key(Key::Char('n'), 0);
    assert!(matches!(app.app_state, AppState::MainMenu));
    assert!(!app.show_confirmation);
    assert!(app.pending_operation.is_none());
    assert!(app.confirmation_message.is_empty());
}

#[test]
fn dry_run_default_install_simulates_and_completes() {
    let mut app = new_app(true);
    app.handle_key(Key::Enter, 0);
    assert!(matches!(app.app_state, AppState::Confirmation));
    // Confirming in dry-run mode must never request a real subprocess.
    let eff = app.handle_key(Key::Enter, 5);
    assert!(matches!(eff, Effect::NoCommand));
    assert!(matches!(app.app_state, AppState::Processing(_)));
    assert_eq!(app.dry_run_start_time, Some(5));
    assert_eq!(
        app.action_output,
        vec!["script line one".to_string(), "script line two".to_string()]
    );
    // One millisecond before the timeout the simulation is still running.
    app.update_progress(10004);
    assert!(matches!(app.app_state, AppState::Processing(_)));
    // At the timeout it completes back to the menu with a success status.
    app.update_progress(10005);
    assert!(matches!(app.app_state, AppState::MainMenu));
    assert!(app.progress_type.is_none());
    let (message, severity) = app.status_message.clone().unwrap();
    assert_eq!(message, "Operation completed successfully");
    assert!(matches!(severity, StatusType::Success));
    assert!(app.password_input.is_empty());
}

#[test]
fn update_flow_requests_command_with_secret() {
    let mut app = new_app(false);
    app.handle_key(Key::Down, 0);
    app.handle_key(Key::Down, 0); // UpdateSystem
    app.handle_key(Key::Enter, 0);
    assert!(matches!(app.app_state, AppState::PasswordInput));
    assert!(matches!(app.pending_operation, Some(InstallerOption::UpdateSystem)));
    type_secret(&mut app, "hunter2", 0);
    assert_eq!(app.password_input.iter().collect::<String>(), "hunter2");
    let eff = app.handle_key(Key::Enter, 100);
    match eff {
        Effect::Run(req) => {
            assert!(matches!(req.kind, CommandKind::UpdateSystem));
            let secret: String = req.secret.unwrap().iter().collect();
            assert_eq!(secret, "hunter2");
        }
        Effect::NoCommand => panic!("expected a command request"),
    }
    assert!(matches!(app.app_state, AppState::Processing(_)));
    // The secret moved out with the request; the session keeps none of it.
    assert!(app.password_input.is_empty());
}

#[test]
fn auth_failure_returns_to_password_input() {
    let mut app = new_app(false);
    app.handle_key(Key::Down, 0);
    app.handle_key(Key::Down, 0);
    app.handle_key(Key::Enter, 0);
    type_secret(&mut app, "wrong", 0);
    let eff = app.handle_key(Key::Enter, 100);
    assert!(matches!(eff, Effect::Run(_)));
    app.apply_command_result(Err(CommandError::AuthFailure), 200);
    assert!(matches!(app.app_state, AppState::PasswordInput));
    assert!(matches!(app.pending_operation, Some(InstallerOption::UpdateSystem)));
    assert!(app.password_input.is_empty());
    let (message, severity) = app.status_message.clone().unwrap();
    assert_eq!(message, "Authentication failed");
    assert!(matches!(severity, StatusType::Error));
}

#[test]
fn update_failure_reports_error_at_menu() {
    let mut app = new_app(false);
    app.handle_key(Key::Down, 0);
    app.handle_key(Key::Down, 0);
    app.handle_key(Key::Enter, 0);
    type_secret(&mut app, "secret", 0);
    app.handle_key(Key::Enter, 100);
    app.apply_command_result(
        Err(CommandError::CommandFailure("update blew up".to_string())),
        200,
    );
    assert!(matches!(app.app_state, AppState::MainMenu));
    let (message, severity) = app.status_message.clone().unwrap();
    assert_eq!(message, "update blew up");
    assert!(matches!(severity, StatusType::Error));
    assert!(app.password_input.is_empty());
    assert!(app.progress_type.is_none());
}

#[test]
fn spawn_failure_treated_like_command_failure() {
    let mut app = new_app(false);
    app.handle_key(Key::Down, 0);
    app.handle_key(Key::Down, 0);
    app.handle_key(Key::Enter, 0);
    type_secret(&mut app, "secret", 0);
    app.handle_key(Key::Enter, 100);
    app.apply_command_result(
        Err(CommandError::SpawnFailure("no such command".to_string())),
        200,
    );
    assert!(matches!(app.app_state, AppState::MainMenu));
    let (message, severity) = app.status_message.clone().unwrap();
    assert_eq!(message, "no such command");
    assert!(matches!(severity, StatusType::Error));
}

#[test]
fn default_install_failure_starts_reboot_sequence() {
    let mut app = new_app(false);
    app.handle_key(Key::Enter, 0);
    let eff = app.handle_key(Key::Char('y'), 10);
    match eff {
        Effect::Run(req) => {
            assert!(matches!(req.kind, CommandKind::InstallScript));
            assert!(req.secret.is_none());
        }
        Effect::NoCommand => panic!("expected the install script request"),
    }
    app.apply_command_result(
        Err(CommandError::CommandFailure("setup script failed".to_string())),
        20,
    );
    // No error status: the failure is healed by a reboot sequence.
    assert!(app.status_message.is_none());
    assert!(matches!(app.app_state, AppState::Processing(_)));
    assert!(matches!(app.pending_system_action, Some(SystemAction::Reboot)));
    assert!(matches!(
        app.progress_type,
        Some(sparrow_installer::session::ProgressType::Determinant(5))
    ));
    assert_eq!(app.countdown_remaining, 5);
}

#[test]
fn default_install_success_returns_to_menu() {
    let mut app = new_app(false);
    app.handle_key(Key::Enter, 0);
    app.handle_key(Key::Enter, 10);
    app.apply_command_result(Ok(()), 20);
    assert!(matches!(app.app_state, AppState::MainMenu));
    let (message, severity) = app.status_message.clone().unwrap();
    assert_eq!(message, "Operation completed successfully");
    assert!(matches!(severity, StatusType::Success));
    assert!(app.pending_operation.is_none());
}

#[test]
fn countdown_decreases_once_per_second_and_never_below_zero() {
    let mut app = new_app(false);
    app.start_poweroff(0);
    assert_eq!(app.countdown_remaining, 5);
    app.update_progress(999);
    assert_eq!(app.countdown_remaining, 5);
    app.update_progress(1000);
    assert_eq!(app.countdown_remaining, 4);
    // Less than a second since the last tick: idempotent, no decrement.
    app.update_progress(1500);
    assert_eq!(app.countdown_remaining, 4);
    app.update_progress(2000);
    assert_eq!(app.countdown_remaining, 3);
    app.update_progress(3000);
    app.update_progress(4000);
    app.update_progress(5000);
    assert_eq!(app.countdown_remaining, 0);
    // At zero the next elapsed second completes instead of decrementing.
    app.update_progress(6000);
    assert_eq!(app.countdown_remaining, 0);
    assert!(app.should_quit);
}

#[test]
fn real_countdown_completion_requests_quit() {
    let mut app = new_app(false);
    app.handle_key(Key::Down, 0);
    app.handle_key(Key::Down, 0);
    app.handle_key(Key::Down, 0); // Exit
    app.handle_key(Key::Enter, 0);
    assert!(matches!(app.pending_system_action, Some(SystemAction::Poweroff)));
    for t in [1000, 2000, 3000, 4000, 5000] {
        app.update_progress(t);
    }
    assert!(!app.should_quit);
    app.update_progress(6000);
    assert!(app.should_quit);
    assert!(app.password_input.is_empty());
}

#[test]
fn poweroff_dry_run_countdown_requests_quit() {
    let mut app = new_app(true);
    app.handle_key(Key::Down, 0);
    app.handle_key(Key::Down, 0);
    app.handle_key(Key::Down, 0); // Exit
    app.handle_key(Key::Enter, 0);
    for t in [1000, 2000, 3000, 4000, 5000] {
        app.update_progress(t);
        assert!(!app.should_quit);
    }
    app.update_progress(6000);
    assert!(app.should_quit);
    assert!(app.progress_type.is_none());
}

#[test]
fn reboot_dry_run_countdown_returns_to_menu() {
    let mut app = new_app(true);
    app.start_reboot(0);
    for t in [1000, 2000, 3000, 4000, 5000, 6000] {
        app.update_progress(t);
    }
    assert!(!app.should_quit);
    assert!(matches!(app.app_state, AppState::MainMenu));
    assert!(app.progress_type.is_none());
    let (message, severity) = app.status_message.clone().unwrap();
    assert_eq!(message, "DRY-RUN: System action simulation complete");
    assert!(matches!(severity, StatusType::Success));
}

#[test]
fn quit_key_starts_poweroff() {
    let mut app = new_app(false);
    app.handle_key(Key::Char('q'), 0);
    assert!(matches!(app.app_state, AppState::Processing(_)));
    assert!(matches!(app.pending_system_action, Some(SystemAction::Poweroff)));
    assert_eq!(app.countdown_remaining, 5);
}

#[test]
fn password_editing_and_cancel() {
    let mut app = new_app(false);
    app.handle_key(Key::Down, 0);
    app.handle_key(Key::Down, 0);
    app.handle_key(Key::Enter, 0);
    assert!(!app.show_password);
    app.handle_key(Key::Tab, 0);
    assert!(app.show_password);
    type_secret(&mut app, "abc", 0);
    app.handle_key(Key::Backspace, 0);
    assert_eq!(app.password_input.iter().collect::<String>(), "ab");
    app.handle_key(Key::Esc, 0);
    assert!(matches!(app.app_state, AppState::MainMenu));
    assert!(app.pending_operation.is_none());
    assert!(app.password_input.is_empty());
    assert!(!app.show_password);
}

#[test]
fn empty_password_submit_reports_error() {
    let mut app = new_app(false);
    app.handle_key(Key::Down, 0);
    app.handle_key(Key::Down, 0);
    app.handle_key(Key::Enter, 0);
    let eff = app.handle_key(Key::Enter, 0);
    assert!(matches!(eff, Effect::NoCommand));
    assert!(matches!(app.app_state, AppState::PasswordInput));
    let (message, severity) = app.status_message.clone().unwrap();
    assert_eq!(message, "Password cannot be empty");
    assert!(matches!(severity, StatusType::Error));
}

#[test]
fn dry_run_update_retains_secret_until_cancelled() {
    let mut app = new_app(true);
    app.handle_key(Key::Down, 0);
    app.handle_key(Key::Down, 0);
    app.handle_key(Key::Enter, 0);
    type_secret(&mut app, "keepme", 0);
    // Submitting in dry-run mode moves on to confirmation with the secret
    // retained: it would still be needed if the operation proceeded.
    let eff = app.handle_key(Key::Enter, 0);
    assert!(matches!(eff, Effect::NoCommand));
    assert!(matches!(app.app_state, AppState::Confirmation));
    assert_eq!(app.confirmation_message, "Update the system?");
    assert_eq!(app.password_input.iter().collect::<String>(), "keepme");
    // Confirming simulates the update; no subprocess request.
    let eff = app.handle_key(Key::Char('y'), 50);
    assert!(matches!(eff, Effect::NoCommand));
    assert!(matches!(app.app_state, AppState::Processing(_)));
    assert_eq!(app.action_output, vec!["update line".to_string()]);
    // Cancelling the simulation clears the retained secret.
    app.handle_key(Key::Esc, 60);
    assert!(matches!(app.app_state, AppState::MainMenu));
    assert!(app.password_input.is_empty());
    let (message, severity) = app.status_message.clone().unwrap();
    assert_eq!(message, "Simulation cancelled.");
    assert!(matches!(severity, StatusType::Error));
}

#[test]
fn esc_ignored_during_real_processing() {
    let mut app = new_app(false);
    app.handle_key(Key::Enter, 0);
    app.handle_key(Key::Enter, 10);
    assert!(matches!(app.app_state, AppState::Processing(_)));
    let eff = app.handle_key(Key::Esc, 20);
    assert!(matches!(eff, Effect::NoCommand));
    assert!(matches!(app.app_state, AppState::Processing(_)));
    assert!(app.progress_type.is_some());
}

#[test]
fn spinner_and_bar_advance_on_their_own_cadences() {
    let mut app = new_app(false);
    app.handle_key(Key::Enter, 0);
    app.handle_key(Key::Enter, 0); // Processing, indeterminate, ticks at 0
    assert_eq!(app.progress_step, 0);
    assert_eq!(app.progress_bar_position, 0);
    // Bar cadence is 80 ms, spinner 100 ms.
    app.update_progress(80);
    assert_eq!(app.progress_step, 0);
    assert_eq!(app.progress_bar_position, 1);
    app.update_progress(100);
    assert_eq!(app.progress_step, 1);
    assert_eq!(app.progress_bar_position, 1);
    // Without elapsed time the advance is a no-op.
    app.update_progress(100);
    assert_eq!(app.progress_step, 1);
    assert_eq!(app.progress_bar_position, 1);
    // The spinner wraps around its four glyphs.
    for t in [200, 300, 400] {
        app.update_progress(t);
    }
    assert_eq!(app.progress_step, 0);
}
