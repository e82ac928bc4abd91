//! The privileged command runner's decision logic.
//!
//! Exactly four external commands are ever invoked: the install script, the
//! update command, reboot, and power off. The library decides which program
//! and arguments each one takes and whether the operator's secret is piped
//! to its input stream; the binary spawns the process and hands the exit
//! status and captured error text back for classification.

use vstd::prelude::*;

verus! {

/// The four privileged commands the installer can run.
#[derive(Clone, Copy, Debug, PartialEq, Eq, Structural)]
pub enum CommandKind {
    InstallScript,
    UpdateSystem,
    Reboot,
    Poweroff,
}

/// Why a privileged command did not succeed.
#[derive(Clone, Debug)]
pub enum CommandError {
    /// The command's error stream matched an authentication-failure phrase:
    /// the operator may retry with another secret.
    AuthFailure,
    /// The command exited with a non-zero status; holds the captured error
    /// text.
    CommandFailure(String),
    /// The process could not be spawned; holds the transport error's text.
    SpawnFailure(String),
}

/// A command ready to launch: program, arguments, and whether the secret is
/// written to the process's input stream followed by a newline.
pub struct CommandSpec {
    pub program: String,
    pub args: Vec<String>,
    pub pipe_secret: bool,
}

/// The program and arguments each command kind launches. Only the update
/// command reads the operator's secret; the install script runs
/// unauthenticated.
pub fn command_spec(kind: CommandKind) -> (spec: CommandSpec)
    ensures
        kind is InstallScript ==> {
            &&& spec.program@ == "bash"@
            &&& spec.args@.len() == 1
            &&& spec.args@[0]@ == "/usr/share/hypr/end-4_installer/setup.sh"@
            &&& !spec.pipe_secret
        },
        kind is UpdateSystem ==> {
            &&& spec.program@ == "sudo"@
            &&& spec.args@.len() == 4
            &&& spec.args@[0]@ == "-S"@
            &&& spec.args@[1]@ == "bootc"@
            &&& spec.args@[2]@ == "update"@
            &&& spec.args@[3]@ == "--apply"@
            &&& spec.pipe_secret
        },
        kind is Reboot ==> {
            &&& spec.program@ == "systemctl"@
            &&& spec.args@.len() == 1
            &&& spec.args@[0]@ == "reboot"@
            &&& !spec.pipe_secret
        },
        kind is Poweroff ==> {
            &&& spec.program@ == "systemctl"@
            &&& spec.args@.len() == 1
            &&& spec.args@[0]@ == "poweroff"@
            &&& !spec.pipe_secret
        },
{
    match kind {
        CommandKind::InstallScript => {
            let mut args: Vec<String> = Vec::new();
            args.push("/usr/share/hypr/end-4_installer/setup.sh".to_owned());
            CommandSpec { program: "bash".to_owned(), args, pipe_secret: false }
        },
        CommandKind::UpdateSystem => {
            let mut args: Vec<String> = Vec::new();
            args.push("-S".to_owned());
            args.push("bootc".to_owned());
            args.push("update".to_owned());
            args.push("--apply".to_owned());
            CommandSpec { program: "sudo".to_owned(), args, pipe_secret: true }
        },
        CommandKind::Reboot => {
            let mut args: Vec<String> = Vec::new();
            args.push("reboot".to_owned());
            CommandSpec { program: "systemctl".to_owned(), args, pipe_secret: false }
        },
        CommandKind::Poweroff => {
            let mut args: Vec<String> = Vec::new();
            args.push("poweroff".to_owned());
            CommandSpec { program: "systemctl".to_owned(), args, pipe_secret: false }
        },
    }
}

/// `pat` occurs in `text` starting at position `i`.
pub open spec fn match_at(text: Seq<char>, pat: Seq<char>, i: int) -> bool {
    text.subrange(i, i + pat.len()) == pat
}

/// `pat` occurs somewhere in `text` as a contiguous run of characters.
pub open spec fn contains_seq(text: Seq<char>, pat: Seq<char>) -> bool {
    exists|i: int| 0 <= i <= text.len() - pat.len() && match_at(text, pat, i)
}

/// Case-sensitive substring search, character by character.
pub fn contains_substring(text: &str, pat: &str) -> (found: bool)
    ensures
        found == contains_seq(text@, pat@),
{
    let n = text.unicode_len();
    let m = pat.unicode_len();
    if m == 0 {
        proof {
            assert(text@.subrange(0, 0) =~= pat@);
            assert(match_at(text@, pat@, 0));
        }
        return true;
    }
    if m > n {
        return false;
    }
    let mut i: usize = 0;
    while i <= n - m
        invariant
            1 <= m <= n,
            n == text@.len(),
            m == pat@.len(),
            i <= n - m + 1,
            forall|k: int| 0 <= k < i ==> !match_at(text@, pat@, k),
        decreases n - m + 1 - i,
    {
        let mut j: usize = 0;
        let mut mismatch = false;
        while j < m
            invariant
                m <= n,
                n == text@.len(),
                m == pat@.len(),
                i + m <= n,
                j <= m,
                !mismatch ==> forall|t: int| 0 <= t < j ==> text@[i + t] == pat@[t],
                mismatch ==> !match_at(text@, pat@, i as int),
            decreases m - j,
        {
            if text.get_char(i + j) != pat.get_char(j) {
                proof {
                    assert(text@.subrange(i as int, i + pat@.len())[j as int] == text@[i + j]);
                }
                mismatch = true;
            }
            j = j + 1;
        }
        if !mismatch {
            proof {
                assert(text@.subrange(i as int, i + pat@.len()) =~= pat@);
                assert(match_at(text@, pat@, i as int));
            }
            return true;
        }
        i = i + 1;
    }
    false
}

/// The error stream reports an authentication failure: it holds one of the
/// known case-sensitive phrases.
pub open spec fn is_auth_failure_text(stderr: Seq<char>) -> bool {
    contains_seq(stderr, "Sorry, try again"@) || contains_seq(stderr, "incorrect password"@)
}

/// Classifies the install script's outcome: a clean exit succeeds, any
/// non-zero exit is a command failure carrying the captured error text.
pub fn classify_install_output(status_ok: bool, stderr: String) -> (r: Result<(), CommandError>)
    ensures
        status_ok <==> r is Ok,
        !status_ok ==> (r matches Err(CommandError::CommandFailure(t)) && t@ == stderr@),
{
    if status_ok {
        Ok(())
    } else {
        Err(CommandError::CommandFailure(stderr))
    }
}

/// Classifies the update command's outcome: a clean exit succeeds; an error
/// stream matching an authentication-failure phrase is recoverable; any
/// other non-zero exit is a command failure carrying the captured error
/// text.
pub fn classify_update_output(status_ok: bool, stderr: String) -> (r: Result<(), CommandError>)
    ensures
        status_ok <==> r is Ok,
        !status_ok && is_auth_failure_text(stderr@) ==> r matches Err(CommandError::AuthFailure),
        !status_ok && !is_auth_failure_text(stderr@) ==> (r matches Err(
            CommandError::CommandFailure(t),
        ) && t@ == stderr@),
{
    if status_ok {
        Ok(())
    } else if contains_substring(stderr.as_str(), "Sorry, try again") || contains_substring(
        stderr.as_str(),
        "incorrect password",
    ) {
        Err(CommandError::AuthFailure)
    } else {
        Err(CommandError::CommandFailure(stderr))
    }
}

} // verus!
