//! General laws of the interaction state machine, proved once and for all
//! over the transition contracts.

use vstd::prelude::*;

use crate::command::CommandError;
use crate::session::App;
use crate::session::Effect;
use crate::session::Key;
use crate::session::ProgressType;
use crate::session::SystemAction;
use crate::session::nav_next;
use crate::session::nav_prev;
use crate::tick::spec_tick_elapsed;
use crate::transitions::SIMULATION_TIMEOUT_MS;
use crate::transitions::apply_command_result_post;
use crate::transitions::confirm_action_post;
use crate::transitions::finish_current_post;
use crate::transitions::handle_key_post;
use crate::transitions::update_progress_post;

verus! {

/// One navigation step: up moves one back, down moves one further, both
/// wrapping.
pub open spec fn nav_step(sel: int, n: int, up: bool) -> int {
    if up {
        nav_prev(sel, n)
    } else {
        nav_next(sel, n)
    }
}

/// Where a whole sequence of navigation events (true is up, false is down)
/// leaves the selection.
pub open spec fn nav_fold(sel: int, n: int, events: Seq<bool>) -> int
    decreases events.len(),
{
    if events.len() == 0 {
        sel
    } else {
        nav_fold(nav_step(sel, n, events[0]), n, events.drop_first())
    }
}

/// Law: for every sequence of up/down navigation events, the selection
/// stays within the menu's bounds.
pub proof fn lemma_navigation_stays_in_bounds(sel: int, n: int, events: Seq<bool>)
    requires
        0 <= sel < n,
    ensures
        0 <= nav_fold(sel, n, events) < n,
    decreases events.len(),
{
    if events.len() > 0 {
        lemma_navigation_stays_in_bounds(nav_step(sel, n, events[0]), n, events.drop_first());
    }
}

/// Law: navigation wraps at both ends: one step up from the first option
/// selects the last, one step down from the last selects the first.
pub proof fn lemma_navigation_wraps(n: int)
    requires
        n > 0,
    ensures
        nav_prev(0, n) == n - 1,
        nav_next(n - 1, n) == 0,
{
    assert(n % n == 0) by (nonlinear_arith)
        requires
            n > 0,
    ;
}

/// Law: any key event that moves the session out of credential entry or
/// processing leaves the secret buffer empty. The one transition that
/// retains the secret is the dry-run submit, which moves on to the
/// confirmation prompt where the secret is still needed.
pub proof fn lemma_leaving_clears_secret(pre: App, post: App, eff: Effect, key: Key, now_ms: u64)
    requires
        pre.wf(),
        handle_key_post(pre, post, eff, key, now_ms),
        pre.app_state is PasswordInput || pre.app_state is Processing,
        !(post.app_state is PasswordInput),
        !(post.app_state is Processing),
        !(post.app_state is Confirmation),
    ensures
        post.password_input@.len() == 0,
{
}

/// Law: once a command's outcome has been applied, the secret buffer is
/// empty — on success, on authentication failure, and on every other
/// failure path.
pub proof fn lemma_command_result_clears_secret(
    pre: App,
    post: App,
    result: Result<(), CommandError>,
    now_ms: u64,
)
    requires
        pre.wf(),
        apply_command_result_post(pre, post, result, now_ms),
    ensures
        post.password_input@.len() == 0,
{
}

/// Law: a clock advance that moves the session out of processing leaves
/// the secret buffer empty.
pub proof fn lemma_progress_clears_secret(pre: App, post: App, now_ms: u64)
    requires
        pre.wf(),
        update_progress_post(pre, post, now_ms),
        pre.app_state is Processing,
        !(post.app_state is Processing),
    ensures
        post.password_input@.len() == 0,
{
}

/// Law: while a determinate countdown runs (and no dry-run timeout
/// intervenes), each elapsed second decreases the remaining count by
/// exactly one; it never goes below zero because at zero the elapsed
/// second completes the sequence instead; and the completion leaves either
/// no live progress (so no later advance completes again) or the process
/// exit already requested.
pub proof fn lemma_countdown_behaviour(pre: App, post: App, now_ms: u64, total: u16)
    requires
        pre.wf(),
        update_progress_post(pre, post, now_ms),
        pre.progress_type == Some(ProgressType::Determinant(total)),
        !(pre.dry_run && (pre.dry_run_start_time matches Some(start) && spec_tick_elapsed(
            now_ms,
            start,
            SIMULATION_TIMEOUT_MS,
        ))),
    ensures
        spec_tick_elapsed(now_ms, pre.last_countdown_update, 1000) && pre.countdown_remaining > 0
            ==> post.countdown_remaining == pre.countdown_remaining - 1 && post.app_state
            == pre.app_state && post.progress_type == pre.progress_type,
        spec_tick_elapsed(now_ms, pre.last_countdown_update, 1000) && pre.countdown_remaining == 0
            ==> finish_current_post(pre, post, now_ms) && (post.progress_type is None
            || post.should_quit),
        !spec_tick_elapsed(now_ms, pre.last_countdown_update, 1000) ==> post == pre,
        post.countdown_remaining <= pre.countdown_remaining,
{
}

/// Law: without live progress a clock advance changes nothing; together
/// with [`lemma_countdown_behaviour`] the completion transition therefore
/// fires exactly once per sequence.
pub proof fn lemma_no_progress_no_change(pre: App, post: App, now_ms: u64)
    requires
        update_progress_post(pre, post, now_ms),
        pre.progress_type is None,
    ensures
        post == pre,
{
}

/// Law: in dry-run mode no key event ever requests a real command; every
/// privileged action is simulated by local state alone.
pub proof fn lemma_dry_run_runs_nothing(pre: App, post: App, eff: Effect, key: Key, now_ms: u64)
    requires
        pre.wf(),
        pre.dry_run,
        handle_key_post(pre, post, eff, key, now_ms),
    ensures
        eff is NoCommand,
{
}

/// Law: a dry-run simulation that reaches its timeout completes through
/// the standard success path: back at the main menu with the success
/// status, progress gone, and the secret buffer empty.
pub proof fn lemma_simulation_timeout_completes(pre: App, post: App, start: u64, now_ms: u64)
    requires
        pre.wf(),
        update_progress_post(pre, post, now_ms),
        pre.dry_run,
        pre.progress_type == Some(ProgressType::Indeterminate),
        pre.dry_run_start_time == Some(start),
        spec_tick_elapsed(now_ms, start, SIMULATION_TIMEOUT_MS),
    ensures
        post.app_state is MainMenu,
        post.progress_type is None,
        post.status_message matches Some((m, st)) && st
            == crate::session::StatusType::Success && m@ == pre.text.operation_success@,
        post.password_input@.len() == 0,
{
}

/// Law: an authentication failure is recoverable: the session returns to
/// credential entry with the pending operation unchanged and the secret
/// buffer empty.
pub proof fn lemma_auth_failure_recovers(pre: App, post: App, now_ms: u64)
    requires
        pre.wf(),
        apply_command_result_post(pre, post, Err(CommandError::AuthFailure), now_ms),
    ensures
        post.app_state is PasswordInput,
        post.pending_operation == pre.pending_operation,
        post.password_input@.len() == 0,
{
}

/// Law: a failed default install always begins the determinate reboot
/// sequence; it never posts an error status at the menu.
pub proof fn lemma_default_failure_reboots(pre: App, post: App, e: CommandError, now_ms: u64)
    requires
        pre.wf(),
        pre.pending_operation == Some(crate::session::InstallerOption::Default),
        !(e is AuthFailure),
        apply_command_result_post(pre, post, Err(e), now_ms),
    ensures
        post.app_state is Processing,
        post.pending_system_action == Some(SystemAction::Reboot),
        post.progress_type == Some(ProgressType::Determinant(pre.timing.countdown_seconds)),
        post.status_message == pre.status_message,
{
}

/// Law: when a dry-run countdown completes, power off still requests
/// process exit (the one truly terminal action), while reboot returns to
/// the main menu without requesting exit.
pub proof fn lemma_dry_run_terminal_actions(pre: App, post: App, now_ms: u64)
    requires
        pre.wf(),
        finish_current_post(pre, post, now_ms),
        pre.dry_run,
        pre.progress_type matches Some(ProgressType::Determinant(_)),
    ensures
        pre.pending_system_action == Some(SystemAction::Poweroff) ==> post.should_quit,
        pre.pending_system_action != Some(SystemAction::Poweroff) ==> post.app_state is MainMenu
            && post.should_quit == pre.should_quit,
{
}

/// Law: in dry-run mode confirming an operation requests no command.
pub proof fn lemma_dry_run_confirm_runs_nothing(pre: App, post: App, eff: Effect, now_ms: u64)
    requires
        pre.dry_run,
        confirm_action_post(pre, post, eff, now_ms),
    ensures
        eff is NoCommand,
{
}

} // verus!
