//! The legal transitions of the interaction state machine.
//!
//! Every mutation of the session happens here. Each transition's contract
//! is stated as a post-state predicate relating the session before and
//! after the call (and, where a privileged command must run, the [`Effect`]
//! handed back to the event loop); the predicates are shared by
//! [`App::handle_key`]'s dispatch contract and by the laws proved in
//! [`crate::laws`].

use vstd::prelude::*;

use crate::command::CommandError;
use crate::command::CommandKind;
use crate::session::App;
use crate::session::AppState;
use crate::session::CommandRequest;
use crate::session::Effect;
use crate::session::InstallerOption;
use crate::session::Key;
use crate::session::ProgressType;
use crate::session::StatusType;
use crate::session::SystemAction;
use crate::tick::spec_tick_elapsed;
use crate::tick::tick_elapsed;

verus! {

/// How long a dry-run simulation runs before it is treated as completed,
/// in milliseconds.
pub const SIMULATION_TIMEOUT_MS: u64 = 10000;

/// All three cadence timestamps are reset to `now_ms`.
pub open spec fn ticks_reset(post: App, now_ms: u64) -> bool {
    &&& post.last_spinner_update == now_ms
    &&& post.last_progress_update == now_ms
    &&& post.last_countdown_update == now_ms
}

/// The two line lists hold the same text.
pub open spec fn lines_eq(a: Seq<String>, b: Seq<String>) -> bool {
    &&& a.len() == b.len()
    &&& forall|i: int| 0 <= i < a.len() ==> a[i]@ == b[i]@
}

/// The confirmation prompt shown for an operation awaiting confirmation.
pub open spec fn confirm_text_view(pre: App, op: InstallerOption) -> Seq<char> {
    match op {
        InstallerOption::Default => pre.text.confirm_default_install@,
        InstallerOption::UpdateSystem => pre.text.confirm_system_update@,
        _ => "Confirm operation?"@,
    }
}

/// The activity label shown while an operation runs.
pub open spec fn activity_label_view(pre: App, op: Option<InstallerOption>) -> Seq<char> {
    match op {
        Some(InstallerOption::Default) => pre.text.progress_installing@,
        Some(InstallerOption::UpdateSystem) => pre.text.progress_updating@,
        _ => pre.text.processing@,
    }
}

/// The status text reported for a failed command.
pub open spec fn error_text_view(pre: App, e: CommandError) -> Seq<char> {
    match e {
        CommandError::AuthFailure => pre.text.password_auth_failed@,
        CommandError::CommandFailure(t) => t@,
        CommandError::SpawnFailure(t) => t@,
    }
}

/// Post-state of entering a determinate reboot/power-off sequence: a
/// `Processing` state labelled for the action, a fresh countdown, cleared
/// output, reset cadences, and the system action recorded so the outer
/// driver can execute it after the interactive loop has torn down.
pub open spec fn start_system_action_post(
    pre: App,
    post: App,
    action: SystemAction,
    now_ms: u64,
) -> bool {
    &&& post == (App {
        app_state: post.app_state,
        progress_type: Some(ProgressType::Determinant(pre.timing.countdown_seconds)),
        countdown_remaining: pre.timing.countdown_seconds,
        progress_step: 0usize,
        progress_bar_position: 0usize,
        action_output: post.action_output,
        last_spinner_update: now_ms,
        last_progress_update: now_ms,
        last_countdown_update: now_ms,
        dry_run_start_time: if pre.dry_run {
            Some(now_ms)
        } else {
            None
        },
        pending_system_action: Some(action),
        ..pre
    })
    &&& post.app_state matches AppState::Processing(label) && label@ == (if action is Reboot {
        pre.text.progress_rebooting@
    } else {
        pre.text.progress_poweroff@
    })
    &&& post.action_output@.len() == 0
}

/// Post-state of the standard successful completion: back at the main menu
/// with a success status, progress and buffers cleared, cadences reset.
pub open spec fn finish_success_post(pre: App, post: App, now_ms: u64) -> bool {
    &&& post == (App {
        progress_type: None,
        app_state: AppState::MainMenu,
        status_message: post.status_message,
        action_output: post.action_output,
        progress_bar_position: 0usize,
        dry_run_start_time: None,
        password_input: post.password_input,
        pending_operation: None,
        last_spinner_update: now_ms,
        last_progress_update: now_ms,
        last_countdown_update: now_ms,
        ..pre
    })
    &&& post.status_message matches Some((m, st)) && st == StatusType::Success && m@
        == pre.text.operation_success@
    &&& post.action_output@.len() == 0
    &&& post.password_input@.len() == 0
}

/// Post-state of the standard completion path after a command returned:
/// success goes back to the menu with a success status; a failure on the
/// default-install path starts a determinate reboot sequence instead of
/// reporting (a broken first-run install is healed by rebooting into
/// retry); any other failure goes back to the menu with an error status.
/// Every branch leaves the secret buffer empty.
pub open spec fn finish_operation_post(
    pre: App,
    post: App,
    result: Result<(), CommandError>,
    now_ms: u64,
) -> bool {
    match result {
        Ok(()) => finish_success_post(pre, post, now_ms),
        Err(e) => {
            if pre.pending_operation == Some(InstallerOption::Default) {
                &&& start_system_action_post(
                    App { password_input: post.password_input, ..pre },
                    post,
                    SystemAction::Reboot,
                    now_ms,
                )
                &&& post.password_input@.len() == 0
            } else {
                &&& post == (App {
                    progress_type: None,
                    app_state: AppState::MainMenu,
                    status_message: post.status_message,
                    action_output: post.action_output,
                    progress_bar_position: 0usize,
                    dry_run_start_time: None,
                    password_input: post.password_input,
                    pending_operation: None,
                    last_spinner_update: now_ms,
                    last_progress_update: now_ms,
                    last_countdown_update: now_ms,
                    ..pre
                })
                &&& post.status_message matches Some((m, st)) && st == StatusType::Error && m@
                    == error_text_view(pre, e)
                &&& post.action_output@.len() == 0
                &&& post.password_input@.len() == 0
            }
        },
    }
}

/// Post-state of a completion driven by the clock (countdown reached zero
/// or a dry-run simulation timed out). A determinate sequence either
/// requests process exit (power off, or any real system action) or, for a
/// simulated reboot, returns to the menu; an indeterminate one takes the
/// standard success path. Every branch leaves the secret buffer empty.
pub open spec fn finish_current_post(pre: App, post: App, now_ms: u64) -> bool {
    if pre.progress_type matches Some(ProgressType::Determinant(_)) {
        if pre.dry_run {
            if pre.pending_system_action == Some(SystemAction::Poweroff) {
                &&& post == (App {
                    should_quit: true,
                    progress_type: None,
                    action_output: post.action_output,
                    progress_bar_position: 0usize,
                    dry_run_start_time: None,
                    password_input: post.password_input,
                    ..pre
                })
                &&& post.action_output@.len() == 0
                &&& post.password_input@.len() == 0
            } else {
                &&& post == (App {
                    progress_type: None,
                    app_state: AppState::MainMenu,
                    status_message: post.status_message,
                    action_output: post.action_output,
                    progress_bar_position: 0usize,
                    dry_run_start_time: None,
                    password_input: post.password_input,
                    pending_operation: None,
                    last_spinner_update: now_ms,
                    last_progress_update: now_ms,
                    last_countdown_update: now_ms,
                    ..pre
                })
                &&& post.status_message matches Some((m, st)) && st == StatusType::Success && m@
                    == "DRY-RUN: System action simulation complete"@
                &&& post.action_output@.len() == 0
                &&& post.password_input@.len() == 0
            }
        } else {
            &&& post == (App { should_quit: true, password_input: post.password_input, ..pre })
            &&& post.password_input@.len() == 0
        }
    } else {
        finish_success_post(pre, post, now_ms)
    }
}

/// Post-state of feeding a command's classified outcome back in: an
/// authentication failure is recoverable and returns to credential entry
/// with the pending operation kept and the secret buffer cleared; anything
/// else takes the standard completion path.
pub open spec fn apply_command_result_post(
    pre: App,
    post: App,
    result: Result<(), CommandError>,
    now_ms: u64,
) -> bool {
    if result matches Err(CommandError::AuthFailure) {
        &&& post == (App {
            progress_type: None,
            app_state: AppState::PasswordInput,
            password_input: post.password_input,
            status_message: post.status_message,
            ..pre
        })
        &&& post.password_input@.len() == 0
        &&& post.status_message matches Some((m, st)) && st == StatusType::Error && m@
            == pre.text.password_auth_failed@
    } else {
        finish_operation_post(pre, post, result, now_ms)
    }
}

/// Post-state of cancelling the confirmation dialog: back at the main
/// menu, the pending operation and the secret buffer discarded.
pub open spec fn cancel_confirmation_post(pre: App, post: App) -> bool {
    &&& post == (App {
        show_confirmation: false,
        confirmation_message: post.confirmation_message,
        app_state: AppState::MainMenu,
        pending_operation: None,
        password_input: post.password_input,
        ..pre
    })
    &&& post.confirmation_message@.len() == 0
    &&& post.password_input@.len() == 0
}

/// Post-state of cancelling credential entry: back at the main menu, the
/// pending operation and the secret buffer discarded.
pub open spec fn cancel_password_post(pre: App, post: App) -> bool {
    &&& post == (App {
        app_state: AppState::MainMenu,
        pending_operation: None,
        password_input: post.password_input,
        show_password: false,
        ..pre
    })
    &&& post.password_input@.len() == 0
}

impl App {
    /// Shows the confirmation dialog with the given prompt.
    pub fn show_confirmation(&mut self, message: String)
        requires
            old(self).wf(),
            old(self).progress_type is None,
        ensures
            final(self).wf(),
            *final(self) == (App {
                show_confirmation: true,
                confirmation_message: final(self).confirmation_message,
                app_state: AppState::Confirmation,
                ..*old(self)
            }),
            final(self).confirmation_message@ == message@,
    {
        self.confirmation_message = message;
        self.show_confirmation = true;
        self.app_state = AppState::Confirmation;
    }

    /// Cancels the confirmation dialog: back to the main menu, the pending
    /// operation and the secret buffer discarded.
    pub fn hide_confirmation(&mut self)
        requires
            old(self).wf(),
            old(self).show_confirmation,
        ensures
            final(self).wf(),
            cancel_confirmation_post(*old(self), *final(self)),
    {
        self.show_confirmation = false;
        self.confirmation_message = String::new();
        self.app_state = AppState::MainMenu;
        self.pending_operation = None;
        self.password_input.clear();
    }

    /// Enters credential entry for the given operation with a fresh,
    /// empty secret buffer.
    pub fn show_password_input(&mut self, operation: InstallerOption)
        requires
            old(self).wf(),
            old(self).progress_type is None,
            !old(self).show_confirmation,
        ensures
            final(self).wf(),
            *final(self) == (App {
                app_state: AppState::PasswordInput,
                pending_operation: Some(operation),
                password_input: final(self).password_input,
                ..*old(self)
            }),
            final(self).password_input@.len() == 0,
    {
        self.app_state = AppState::PasswordInput;
        self.pending_operation = Some(operation);
        self.password_input.clear();
    }

    /// Cancels credential entry: back to the main menu, the pending
    /// operation and the secret buffer discarded.
    pub fn hide_password_input(&mut self)
        requires
            old(self).wf(),
            old(self).app_state is PasswordInput,
        ensures
            final(self).wf(),
            cancel_password_post(*old(self), *final(self)),
    {
        self.app_state = AppState::MainMenu;
        self.pending_operation = None;
        self.password_input.clear();
        self.show_password = false;
    }

    /// Begins the determinate reboot sequence.
    pub fn start_reboot(&mut self, now_ms: u64)
        requires
            old(self).wf(),
            !old(self).show_confirmation,
        ensures
            final(self).wf(),
            start_system_action_post(*old(self), *final(self), SystemAction::Reboot, now_ms),
    {
        self.app_state = AppState::Processing(self.text.progress_rebooting.clone());
        self.progress_type = Some(ProgressType::Determinant(self.timing.countdown_seconds));
        self.countdown_remaining = self.timing.countdown_seconds;
        self.progress_step = 0;
        self.progress_bar_position = 0;
        self.action_output.clear();
        self.last_spinner_update = now_ms;
        self.last_progress_update = now_ms;
        self.last_countdown_update = now_ms;
        self.dry_run_start_time = if self.dry_run {
            Some(now_ms)
        } else {
            None
        };
        self.pending_system_action = Some(SystemAction::Reboot);
    }

    /// Begins the determinate power-off sequence.
    pub fn start_poweroff(&mut self, now_ms: u64)
        requires
            old(self).wf(),
            !old(self).show_confirmation,
        ensures
            final(self).wf(),
            start_system_action_post(*old(self), *final(self), SystemAction::Poweroff, now_ms),
    {
        self.app_state = AppState::Processing(self.text.progress_poweroff.clone());
        self.progress_type = Some(ProgressType::Determinant(self.timing.countdown_seconds));
        self.countdown_remaining = self.timing.countdown_seconds;
        self.progress_step = 0;
        self.progress_bar_position = 0;
        self.action_output.clear();
        self.last_spinner_update = now_ms;
        self.last_progress_update = now_ms;
        self.last_countdown_update = now_ms;
        self.dry_run_start_time = if self.dry_run {
            Some(now_ms)
        } else {
            None
        };
        self.pending_system_action = Some(SystemAction::Poweroff);
    }

    /// Populates the canned simulated output lines for the operation being
    /// simulated; operations without canned output leave the list as it
    /// is.
    pub fn start_simulation(&mut self, option: &InstallerOption)
        requires
            old(self).wf(),
        ensures
            final(self).wf(),
            *final(self) == (App { action_output: final(self).action_output, ..*old(self) }),
            option is Default ==> lines_eq(
                final(self).action_output@,
                old(self).text.dry_run_script_output@,
            ),
            option is UpdateSystem ==> lines_eq(
                final(self).action_output@,
                old(self).text.dry_run_update_output@,
            ),
            !(option is Default) && !(option is UpdateSystem) ==> final(self).action_output
                == old(self).action_output,
    {
        match option {
            InstallerOption::Default => {
                self.action_output = clone_lines(&self.text.dry_run_script_output);
            },
            InstallerOption::UpdateSystem => {
                self.action_output = clone_lines(&self.text.dry_run_update_output);
            },
            _ => {},
        }
    }

    /// The standard completion path after a privileged command returned.
    pub fn finish_operation(&mut self, result: Result<(), CommandError>, now_ms: u64)
        requires
            old(self).wf(),
            old(self).app_state is Processing,
        ensures
            final(self).wf(),
            finish_operation_post(*old(self), *final(self), result, now_ms),
    {
        match result {
            Ok(()) => {
                self.progress_type = None;
                self.app_state = AppState::MainMenu;
                self.status_message = Some(
                    (self.text.operation_success.clone(), StatusType::Success),
                );
                self.pending_operation = None;
            },
            Err(e) => {
                let default_pending = match self.pending_operation {
                    Some(InstallerOption::Default) => true,
                    _ => false,
                };
                if default_pending {
                    self.password_input.clear();
                    self.pending_system_action = Some(SystemAction::Reboot);
                    self.start_reboot(now_ms);
                    return ;
                } else {
                    self.progress_type = None;
                    self.app_state = AppState::MainMenu;
                    let message = match e {
                        CommandError::AuthFailure => self.text.password_auth_failed.clone(),
                        CommandError::CommandFailure(t) => t,
                        CommandError::SpawnFailure(t) => t,
                    };
                    self.status_message = Some((message, StatusType::Error));
                    self.pending_operation = None;
                }
            },
        }
        self.action_output.clear();
        self.progress_bar_position = 0;
        self.dry_run_start_time = None;
        self.password_input.clear();
        self.last_spinner_update = now_ms;
        self.last_progress_update = now_ms;
        self.last_countdown_update = now_ms;
    }

    /// Completion driven by the clock: a countdown that ran out or a
    /// dry-run simulation that hit its timeout.
    pub fn finish_current_operation(&mut self, now_ms: u64)
        requires
            old(self).wf(),
            old(self).app_state is Processing,
        ensures
            final(self).wf(),
            finish_current_post(*old(self), *final(self), now_ms),
    {
        let determinant = match self.progress_type {
            Some(ProgressType::Determinant(_)) => true,
            _ => false,
        };
        if determinant {
            let is_poweroff = match self.pending_system_action {
                Some(SystemAction::Poweroff) => true,
                _ => false,
            };
            if self.dry_run {
                self.progress_type = None;
                self.action_output.clear();
                self.progress_bar_position = 0;
                self.dry_run_start_time = None;
                self.password_input.clear();
                if is_poweroff {
                    // Power off is the one truly terminal action: even the
                    // simulation requests process exit.
                    self.should_quit = true;
                } else {
                    self.app_state = AppState::MainMenu;
                    self.status_message = Some(
                        ("DRY-RUN: System action simulation complete".to_owned(), StatusType::Success),
                    );
                    self.pending_operation = None;
                    self.last_spinner_update = now_ms;
                    self.last_progress_update = now_ms;
                    self.last_countdown_update = now_ms;
                }
                return ;
            }
            // The real system action executes after the interactive loop
            // has torn down the terminal session.
            self.password_input.clear();
            self.should_quit = true;
            return ;
        }
        self.progress_type = None;
        self.app_state = AppState::MainMenu;
        self.status_message = Some((self.text.operation_success.clone(), StatusType::Success));
        self.pending_operation = None;
        self.action_output.clear();
        self.progress_bar_position = 0;
        self.dry_run_start_time = None;
        self.password_input.clear();
        self.last_spinner_update = now_ms;
        self.last_progress_update = now_ms;
        self.last_countdown_update = now_ms;
    }

    /// Feeds the classified outcome of a privileged command back into the
    /// session: an authentication failure returns to credential entry with
    /// the pending operation kept; anything else completes normally.
    pub fn apply_command_result(&mut self, result: Result<(), CommandError>, now_ms: u64)
        requires
            old(self).wf(),
            old(self).app_state is Processing,
        ensures
            final(self).wf(),
            apply_command_result_post(*old(self), *final(self), result, now_ms),
    {
        let auth_failed = match &result {
            Err(CommandError::AuthFailure) => true,
            _ => false,
        };
        if auth_failed {
            self.progress_type = None;
            self.app_state = AppState::PasswordInput;
            self.password_input.clear();
            self.status_message = Some(
                (self.text.password_auth_failed.clone(), StatusType::Error),
            );
        } else {
            self.finish_operation(result, now_ms);
        }
    }
}

/// Post-state common to every commit that starts a real or simulated
/// operation: the confirmation dialog (if any) is cleared, the session is
/// `Processing` under the operation's activity label, indeterminate
/// progress starts from zero with a fresh countdown budget and cleared
/// output, and the cadences are reset. The fields still open (output
/// lines, the dry-run clock, the secret buffer) are pinned per caller.
pub open spec fn commit_processing_post(
    pre: App,
    post: App,
    op: Option<InstallerOption>,
    now_ms: u64,
) -> bool {
    &&& post == (App {
        show_confirmation: false,
        confirmation_message: post.confirmation_message,
        app_state: post.app_state,
        progress_type: Some(ProgressType::Indeterminate),
        progress_step: 0usize,
        progress_bar_position: 0usize,
        countdown_remaining: pre.timing.countdown_seconds,
        action_output: post.action_output,
        last_spinner_update: now_ms,
        last_progress_update: now_ms,
        last_countdown_update: now_ms,
        dry_run_start_time: post.dry_run_start_time,
        password_input: post.password_input,
        ..pre
    })
    &&& post.app_state matches AppState::Processing(label) && label@ == activity_label_view(
        pre,
        op,
    )
}

/// Post-state of a commit whose pending operation takes no command (there
/// is none to run): the session completes immediately with a success
/// status, as if the command had returned at once.
pub open spec fn commit_noop_post(pre: App, post: App, now_ms: u64) -> bool {
    &&& post == (App {
        show_confirmation: false,
        confirmation_message: post.confirmation_message,
        app_state: AppState::MainMenu,
        progress_type: None,
        status_message: post.status_message,
        progress_step: 0usize,
        progress_bar_position: 0usize,
        countdown_remaining: pre.timing.countdown_seconds,
        action_output: post.action_output,
        last_spinner_update: now_ms,
        last_progress_update: now_ms,
        last_countdown_update: now_ms,
        dry_run_start_time: None,
        password_input: post.password_input,
        pending_operation: None,
        ..pre
    })
    &&& post.status_message matches Some((m, st)) && st == StatusType::Success && m@
        == pre.text.operation_success@
    &&& post.action_output@.len() == 0
    &&& post.password_input@.len() == 0
}

/// Post-state of submitting a non-empty secret: in dry-run mode the
/// session moves on to the operation's confirmation prompt with the secret
/// retained (it is still needed if the operation proceeds); in real mode
/// the pending operation's command is requested, the update command taking
/// the secret with it and leaving the session's buffer empty.
pub open spec fn confirm_password_post(pre: App, post: App, eff: Effect, now_ms: u64) -> bool {
    match pre.pending_operation {
        None => post == pre && eff is NoCommand,
        Some(op) => {
            if pre.dry_run {
                &&& post == (App {
                    show_confirmation: true,
                    confirmation_message: post.confirmation_message,
                    app_state: AppState::Confirmation,
                    ..pre
                })
                &&& post.confirmation_message@ == confirm_text_view(pre, op)
                &&& eff is NoCommand
            } else {
                match op {
                    InstallerOption::Default => {
                        &&& commit_processing_post(pre, post, Some(op), now_ms)
                        &&& post.action_output@.len() == 0
                        &&& post.dry_run_start_time == pre.dry_run_start_time
                        &&& post.password_input == pre.password_input
                        &&& eff matches Effect::Run(req) && req.kind == CommandKind::InstallScript
                            && req.secret is None
                    },
                    InstallerOption::UpdateSystem => {
                        &&& commit_processing_post(pre, post, Some(op), now_ms)
                        &&& post.action_output@.len() == 0
                        &&& post.dry_run_start_time == pre.dry_run_start_time
                        &&& post.password_input@.len() == 0
                        &&& eff matches Effect::Run(req) && req.kind == CommandKind::UpdateSystem
                            && (req.secret matches Some(s) && s@ == pre.password_input@)
                    },
                    _ => commit_noop_post(pre, post, now_ms) && eff is NoCommand,
                }
            }
        },
    }
}

/// Post-state of confirming the pending operation: the commit enters
/// `Processing`; in dry-run mode the canned output is shown and the
/// simulation clock starts instead of any subprocess; in real mode the
/// operation's command is requested.
pub open spec fn confirm_action_post(pre: App, post: App, eff: Effect, now_ms: u64) -> bool {
    let op = pre.pending_operation;
    if pre.dry_run {
        &&& commit_processing_post(pre, post, op, now_ms)
        &&& post.confirmation_message@.len() == 0
        &&& post.dry_run_start_time == Some(now_ms)
        &&& post.password_input == pre.password_input
        &&& (op == Some(InstallerOption::Default) ==> lines_eq(
            post.action_output@,
            pre.text.dry_run_script_output@,
        ))
        &&& (op == Some(InstallerOption::UpdateSystem) ==> lines_eq(
            post.action_output@,
            pre.text.dry_run_update_output@,
        ))
        &&& (op != Some(InstallerOption::Default) && op != Some(InstallerOption::UpdateSystem)
            ==> post.action_output@.len() == 0)
        &&& eff is NoCommand
    } else {
        match op {
            Some(InstallerOption::Default) => {
                &&& commit_processing_post(pre, post, op, now_ms)
                &&& post.confirmation_message@.len() == 0
                &&& post.action_output@.len() == 0
                &&& post.dry_run_start_time == pre.dry_run_start_time
                &&& post.password_input == pre.password_input
                &&& eff matches Effect::Run(req) && req.kind == CommandKind::InstallScript
                    && req.secret is None
            },
            Some(InstallerOption::UpdateSystem) => {
                &&& commit_processing_post(pre, post, op, now_ms)
                &&& post.confirmation_message@.len() == 0
                &&& post.action_output@.len() == 0
                &&& post.dry_run_start_time == pre.dry_run_start_time
                &&& post.password_input@.len() == 0
                &&& eff matches Effect::Run(req) && req.kind == CommandKind::UpdateSystem && (
                req.secret matches Some(s) && s@ == pre.password_input@)
            },
            _ => {
                &&& commit_noop_post(pre, post, now_ms)
                &&& post.confirmation_message@.len() == 0
                &&& eff is NoCommand
            },
        }
    }
}

/// Post-state of selecting the highlighted menu option: the default
/// install asks for confirmation, the update asks for credentials, exit
/// begins the power-off sequence, and the disabled custom option only
/// reports that it is disabled.
pub open spec fn execute_option_post(pre: App, post: App, now_ms: u64) -> bool {
    match pre.options@[pre.selected as int] {
        InstallerOption::Default => {
            &&& post == (App {
                show_confirmation: true,
                confirmation_message: post.confirmation_message,
                app_state: AppState::Confirmation,
                pending_operation: Some(InstallerOption::Default),
                ..pre
            })
            &&& post.confirmation_message@ == pre.text.confirm_default_install@
        },
        InstallerOption::UpdateSystem => {
            &&& post == (App {
                app_state: AppState::PasswordInput,
                pending_operation: Some(InstallerOption::UpdateSystem),
                password_input: post.password_input,
                ..pre
            })
            &&& post.password_input@.len() == 0
        },
        InstallerOption::Exit => start_system_action_post(
            pre,
            post,
            SystemAction::Poweroff,
            now_ms,
        ),
        InstallerOption::Custom => {
            &&& post == (App { status_message: post.status_message, ..pre })
            &&& post.status_message matches Some((m, st)) && st == StatusType::Fail && m@
                == pre.text.custom_disabled@
        },
    }
}

/// Post-state of cancelling a dry-run simulation: back at the main menu
/// with a cancellation status, the simulated progress and the secret
/// buffer discarded.
pub open spec fn cancel_simulation_post(pre: App, post: App) -> bool {
    &&& post == (App {
        progress_type: None,
        app_state: AppState::MainMenu,
        status_message: post.status_message,
        action_output: post.action_output,
        dry_run_start_time: None,
        password_input: post.password_input,
        pending_operation: None,
        ..pre
    })
    &&& post.status_message matches Some((m, st)) && st == StatusType::Error && m@
        == "Simulation cancelled."@
    &&& post.action_output@.len() == 0
    &&& post.password_input@.len() == 0
}

/// Post-state of one clock-driven progress advance. Without live progress
/// nothing changes. A dry-run simulation that hit its timeout completes.
/// Otherwise the indeterminate spinner and bar each advance exactly when
/// their cadence is due, and a determinate countdown decreases by exactly
/// one per elapsed second until, at zero, the sequence completes.
pub open spec fn update_progress_post(pre: App, post: App, now_ms: u64) -> bool {
    match pre.progress_type {
        None => post == pre,
        Some(kind) => {
            let timed_out = pre.dry_run && (pre.dry_run_start_time matches Some(start)
                && spec_tick_elapsed(now_ms, start, SIMULATION_TIMEOUT_MS));
            if timed_out {
                finish_current_post(pre, post, now_ms)
            } else if kind is Indeterminate {
                let spin = spec_tick_elapsed(
                    now_ms,
                    pre.last_spinner_update,
                    pre.timing.spinner_speed,
                );
                let bar = spec_tick_elapsed(
                    now_ms,
                    pre.last_progress_update,
                    pre.timing.progress_bar_speed,
                );
                &&& post == (App {
                    progress_step: post.progress_step,
                    last_spinner_update: if spin {
                        now_ms
                    } else {
                        pre.last_spinner_update
                    },
                    progress_bar_position: post.progress_bar_position,
                    last_progress_update: if bar {
                        now_ms
                    } else {
                        pre.last_progress_update
                    },
                    ..pre
                })
                &&& post.progress_step == if spin {
                    (pre.progress_step + 1) % (pre.text.spinner_chars@.len() as int)
                } else {
                    pre.progress_step as int
                }
                &&& post.progress_bar_position == if bar {
                    if pre.progress_bar_position == usize::MAX {
                        0
                    } else {
                        pre.progress_bar_position + 1
                    }
                } else {
                    pre.progress_bar_position as int
                }
            } else {
                let due = spec_tick_elapsed(now_ms, pre.last_countdown_update, 1000);
                if due {
                    if pre.countdown_remaining > 0 {
                        post == (App {
                            countdown_remaining: (pre.countdown_remaining - 1) as u16,
                            last_countdown_update: now_ms,
                            ..pre
                        })
                    } else {
                        finish_current_post(pre, post, now_ms)
                    }
                } else {
                    post == pre
                }
            }
        },
    }
}

/// Post-state of dispatching one keyboard event, by interaction mode:
/// credential entry edits or submits the secret, the confirmation dialog
/// commits or cancels, live progress ignores everything but a dry-run
/// cancellation, and the main menu navigates, selects, or begins power
/// off.
pub open spec fn handle_key_post(pre: App, post: App, eff: Effect, key: Key, now_ms: u64) -> bool {
    if pre.app_state is PasswordInput {
        match key {
            Key::Enter => if pre.password_input@.len() > 0 {
                confirm_password_post(pre, post, eff, now_ms)
            } else {
                &&& post == (App { status_message: post.status_message, ..pre })
                &&& post.status_message matches Some((m, st)) && st == StatusType::Error && m@
                    == pre.text.password_empty_error@
                &&& eff is NoCommand
            },
            Key::Esc => cancel_password_post(pre, post) && eff is NoCommand,
            Key::Tab => post == (App { show_password: !pre.show_password, ..pre })
                && eff is NoCommand,
            Key::Backspace => {
                &&& post == (App { password_input: post.password_input, ..pre })
                &&& post.password_input@ == if pre.password_input@.len() > 0 {
                    pre.password_input@.subrange(0, pre.password_input@.len() - 1)
                } else {
                    pre.password_input@
                }
                &&& eff is NoCommand
            },
            Key::Char(c) => {
                &&& post == (App { password_input: post.password_input, ..pre })
                &&& post.password_input@ == pre.password_input@.push(c)
                &&& eff is NoCommand
            },
            _ => post == pre && eff is NoCommand,
        }
    } else if pre.show_confirmation {
        match key {
            Key::Enter => confirm_action_post(pre, post, eff, now_ms),
            Key::Char(c) => if c == 'y' {
                confirm_action_post(pre, post, eff, now_ms)
            } else if c == 'n' {
                cancel_confirmation_post(pre, post) && eff is NoCommand
            } else {
                post == pre && eff is NoCommand
            },
            Key::Esc => cancel_confirmation_post(pre, post) && eff is NoCommand,
            _ => post == pre && eff is NoCommand,
        }
    } else if pre.progress_type is Some {
        if key is Esc && pre.dry_run {
            cancel_simulation_post(pre, post) && eff is NoCommand
        } else {
            post == pre && eff is NoCommand
        }
    } else {
        match key {
            Key::Char(c) => if c == 'q' {
                start_system_action_post(pre, post, SystemAction::Poweroff, now_ms)
                    && eff is NoCommand
            } else {
                post == pre && eff is NoCommand
            },
            Key::Down => {
                &&& post == (App { selected: post.selected, status_message: None, ..pre })
                &&& post.selected == crate::session::nav_next(
                    pre.selected as int,
                    pre.options@.len() as int,
                )
                &&& eff is NoCommand
            },
            Key::Up => {
                &&& post == (App { selected: post.selected, status_message: None, ..pre })
                &&& post.selected == crate::session::nav_prev(
                    pre.selected as int,
                    pre.options@.len() as int,
                )
                &&& eff is NoCommand
            },
            Key::Enter => execute_option_post(pre, post, now_ms) && eff is NoCommand,
            Key::Esc => post == (App { status_message: None, ..pre }) && eff is NoCommand,
            _ => post == pre && eff is NoCommand,
        }
    }
}

impl App {
    /// Selects the highlighted menu option.
    pub fn execute_option(&mut self, now_ms: u64)
        requires
            old(self).wf(),
            old(self).app_state is MainMenu,
        ensures
            final(self).wf(),
            execute_option_post(*old(self), *final(self), now_ms),
    {
        let option = self.options[self.selected];
        match option {
            InstallerOption::Default => {
                if option.is_enabled() {
                    let message = self.text.confirm_default_install.clone();
                    self.show_confirmation(message);
                    self.pending_operation = Some(InstallerOption::Default);
                } else {
                    self.status_message = Some(
                        (self.text.option_disabled.clone(), StatusType::Fail),
                    );
                }
            },
            InstallerOption::UpdateSystem => {
                if option.is_enabled() {
                    self.show_password_input(InstallerOption::UpdateSystem);
                } else {
                    self.status_message = Some(
                        (self.text.option_disabled.clone(), StatusType::Fail),
                    );
                }
            },
            InstallerOption::Exit => {
                self.start_poweroff(now_ms);
            },
            InstallerOption::Custom => {
                self.status_message = Some((self.text.custom_disabled.clone(), StatusType::Fail));
            },
        }
    }

    /// Submits the entered secret for the pending operation.
    pub fn confirm_password(&mut self, now_ms: u64) -> (eff: Effect)
        requires
            old(self).wf(),
            old(self).app_state is PasswordInput,
        ensures
            final(self).wf(),
            confirm_password_post(*old(self), *final(self), eff, now_ms),
    {
        let op = match self.pending_operation {
            Some(o) => o,
            None => {
                return Effect::NoCommand;
            },
        };
        if self.dry_run {
            // The secret is retained: it is still needed if the operation
            // proceeds past the confirmation prompt.
            let message = match op {
                InstallerOption::Default => self.text.confirm_default_install.clone(),
                InstallerOption::UpdateSystem => self.text.confirm_system_update.clone(),
                _ => "Confirm operation?".to_owned(),
            };
            self.show_confirmation(message);
            Effect::NoCommand
        } else {
            let label = match op {
                InstallerOption::Default => self.text.progress_installing.clone(),
                InstallerOption::UpdateSystem => self.text.progress_updating.clone(),
                _ => self.text.processing.clone(),
            };
            self.app_state = AppState::Processing(label);
            self.progress_type = Some(ProgressType::Indeterminate);
            self.progress_step = 0;
            self.progress_bar_position = 0;
            self.countdown_remaining = self.timing.countdown_seconds;
            self.action_output.clear();
            self.last_spinner_update = now_ms;
            self.last_progress_update = now_ms;
            self.last_countdown_update = now_ms;
            match op {
                InstallerOption::Default => Effect::Run(
                    CommandRequest { kind: CommandKind::InstallScript, secret: None },
                ),
                InstallerOption::UpdateSystem => {
                    let mut secret: Vec<char> = Vec::new();
                    core::mem::swap(&mut secret, &mut self.password_input);
                    Effect::Run(
                        CommandRequest { kind: CommandKind::UpdateSystem, secret: Some(secret) },
                    )
                },
                _ => {
                    self.finish_operation(Ok(()), now_ms);
                    Effect::NoCommand
                },
            }
        }
    }

    /// Commits the confirmed operation: simulates it in dry-run mode, or
    /// requests its command.
    pub fn confirm_action(&mut self, now_ms: u64) -> (eff: Effect)
        requires
            old(self).wf(),
            old(self).show_confirmation,
        ensures
            final(self).wf(),
            confirm_action_post(*old(self), *final(self), eff, now_ms),
    {
        let op = self.pending_operation;
        self.show_confirmation = false;
        self.confirmation_message = String::new();
        let label = match op {
            Some(InstallerOption::Default) => self.text.progress_installing.clone(),
            Some(InstallerOption::UpdateSystem) => self.text.progress_updating.clone(),
            _ => self.text.processing.clone(),
        };
        self.app_state = AppState::Processing(label);
        self.progress_type = Some(ProgressType::Indeterminate);
        self.progress_step = 0;
        self.progress_bar_position = 0;
        self.countdown_remaining = self.timing.countdown_seconds;
        self.action_output.clear();
        self.last_spinner_update = now_ms;
        self.last_progress_update = now_ms;
        self.last_countdown_update = now_ms;
        if self.dry_run {
            self.dry_run_start_time = Some(now_ms);
            match op {
                Some(o) => {
                    self.start_simulation(&o);
                },
                None => {},
            }
            Effect::NoCommand
        } else {
            match op {
                Some(InstallerOption::Default) => Effect::Run(
                    CommandRequest { kind: CommandKind::InstallScript, secret: None },
                ),
                Some(InstallerOption::UpdateSystem) => {
                    let mut secret: Vec<char> = Vec::new();
                    core::mem::swap(&mut secret, &mut self.password_input);
                    Effect::Run(
                        CommandRequest { kind: CommandKind::UpdateSystem, secret: Some(secret) },
                    )
                },
                _ => {
                    self.finish_operation(Ok(()), now_ms);
                    Effect::NoCommand
                },
            }
        }
    }

    /// Advances the time-based progress feedback for one loop iteration.
    pub fn update_progress(&mut self, now_ms: u64)
        requires
            old(self).wf(),
        ensures
            final(self).wf(),
            update_progress_post(*old(self), *final(self), now_ms),
    {
        let kind = match self.progress_type {
            Some(k) => k,
            None => {
                return ;
            },
        };
        if self.dry_run {
            let timed_out = match self.dry_run_start_time {
                Some(start) => tick_elapsed(now_ms, start, SIMULATION_TIMEOUT_MS),
                None => false,
            };
            if timed_out {
                self.finish_current_operation(now_ms);
                return ;
            }
        }
        match kind {
            ProgressType::Indeterminate => {
                if tick_elapsed(now_ms, self.last_spinner_update, self.timing.spinner_speed) {
                    let glyph_count = self.text.spinner_chars.len();
                    self.progress_step = (self.progress_step + 1) % glyph_count;
                    self.last_spinner_update = now_ms;
                }
                if tick_elapsed(now_ms, self.last_progress_update, self.timing.progress_bar_speed) {
                    self.progress_bar_position = if self.progress_bar_position == usize::MAX {
                        0
                    } else {
                        self.progress_bar_position + 1
                    };
                    self.last_progress_update = now_ms;
                }
            },
            ProgressType::Determinant(_) => {
                if tick_elapsed(now_ms, self.last_countdown_update, 1000) {
                    if self.countdown_remaining > 0 {
                        self.countdown_remaining = self.countdown_remaining - 1;
                        self.last_countdown_update = now_ms;
                    } else {
                        self.finish_current_operation(now_ms);
                    }
                }
            },
        }
    }

    /// Dispatches one keyboard event according to the interaction mode the
    /// session is in. The event is processed before the same iteration's
    /// time-based progress advance.
    pub fn handle_key(&mut self, key: Key, now_ms: u64) -> (eff: Effect)
        requires
            old(self).wf(),
            !old(self).should_quit,
        ensures
            final(self).wf(),
            handle_key_post(*old(self), *final(self), eff, key, now_ms),
    {
        let in_password = match self.app_state {
            AppState::PasswordInput => true,
            _ => false,
        };
        if in_password {
            match key {
                Key::Enter => {
                    if self.password_input.len() > 0 {
                        return self.confirm_password(now_ms);
                    } else {
                        self.status_message = Some(
                            (self.text.password_empty_error.clone(), StatusType::Error),
                        );
                    }
                },
                Key::Esc => {
                    self.hide_password_input();
                },
                Key::Tab => {
                    self.show_password = !self.show_password;
                },
                Key::Backspace => {
                    self.password_input.pop();
                },
                Key::Char(c) => {
                    self.password_input.push(c);
                },
                _ => {},
            }
            return Effect::NoCommand;
        }
        if self.show_confirmation {
            match key {
                Key::Enter => {
                    return self.confirm_action(now_ms);
                },
                Key::Char(c) => {
                    if c == 'y' {
                        return self.confirm_action(now_ms);
                    }
                    if c == 'n' {
                        self.hide_confirmation();
                    }
                },
                Key::Esc => {
                    self.hide_confirmation();
                },
                _ => {},
            }
            return Effect::NoCommand;
        }
        let in_progress = match self.progress_type {
            Some(_) => true,
            None => false,
        };
        if in_progress {
            match key {
                Key::Esc => {
                    // Only a simulation can be cancelled: once a real
                    // privileged command is running it must be awaited.
                    if self.dry_run {
                        self.progress_type = None;
                        self.app_state = AppState::MainMenu;
                        self.status_message = Some(
                            ("Simulation cancelled.".to_owned(), StatusType::Error),
                        );
                        self.action_output.clear();
                        self.dry_run_start_time = None;
                        self.password_input.clear();
                        self.pending_operation = None;
                    }
                },
                _ => {},
            }
            return Effect::NoCommand;
        }
        match key {
            Key::Char(c) => {
                if c == 'q' {
                    self.start_poweroff(now_ms);
                }
            },
            Key::Down => {
                self.next();
                self.clear_status();
            },
            Key::Up => {
                self.previous();
                self.clear_status();
            },
            Key::Enter => {
                self.execute_option(now_ms);
            },
            Key::Esc => {
                self.clear_status();
            },
            _ => {},
        }
        Effect::NoCommand
    }
}

/// Copies a list of display lines; the copy shows the same text.
fn clone_lines(src: &Vec<String>) -> (out: Vec<String>)
    ensures
        lines_eq(out@, src@),
{
    let mut out: Vec<String> = Vec::new();
    let mut i: usize = 0;
    while i < src.len()
        invariant
            i <= src@.len(),
            out@.len() == i,
            forall|k: int| 0 <= k < i ==> out@[k]@ == src@[k]@,
        decreases src@.len() - i,
    {
        out.push(src[i].clone());
        i = i + 1;
    }
    out
}

} // verus!
