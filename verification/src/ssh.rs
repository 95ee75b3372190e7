//! The results of SSH sessions with the board.
use vstd::prelude::*;

use crate::results::{SshConnectResult, SshExecResult};
use crate::text::{chars_of, concat, push_dec, push_str, string_of, trim};

verus! {

/// The result of connecting as `username` to `host:port`.
pub fn ssh_connect(host: &str, port: u16, username: &str, connected: Result<(), String>) -> (r:
    SshConnectResult)
    ensures
        match connected {
            Ok(_) => r.success && r.output@ == "SSH connected to "@ + username@ + "@"@ + host@
                + ":"@ + crate::text::dec(port as nat) && r.error is None,
            Err(e) => !r.success && r.output@.len() == 0 && r.error is Some && r.error->0@ == e@,
        },
{
    match connected {
        Ok(_) => {
            let mut v = chars_of("SSH connected to ");
            push_str(&mut v, username);
            push_str(&mut v, "@");
            push_str(&mut v, host);
            push_str(&mut v, ":");
            push_dec(&mut v, port as u64);
            SshConnectResult { success: true, output: string_of(v.as_slice()), error: None }
        },
        Err(e) => SshConnectResult { success: false, output: String::new(), error: Some(e) },
    }
}

/// How a command run over SSH ended.
pub enum SshExecOutcome {
    /// No session could be opened: the message says why.
    SessionFailed(String),
    /// The session opened but no channel did.
    ChannelFailed(String),
    /// The command could not be started.
    ExecFailed(String),
    /// The command ran: what it printed and its exit status.
    Finished { stdout: String, stderr: String, exit_code: i32 },
}

/// The result of a command run over SSH: success exactly when it exited
/// with 0; its standard error when not blank, or the exit code.
pub fn ssh_exec(outcome: SshExecOutcome) -> (r: SshExecResult)
    ensures
        match outcome {
            SshExecOutcome::SessionFailed(e) => !r.success && r.output@.len() == 0 && r.error
                is Some && r.error->0@ == e@,
            SshExecOutcome::ChannelFailed(e) => !r.success && r.output@.len() == 0 && r.error
                is Some && r.error->0@ == "SSH channel open failed: "@ + e@,
            SshExecOutcome::ExecFailed(e) => !r.success && r.output@.len() == 0 && r.error is Some
                && r.error->0@ == "SSH exec failed: "@ + e@,
            SshExecOutcome::Finished { stdout, stderr, exit_code } => r.success == (exit_code == 0)
                && r.output == stdout && (if exit_code == 0 {
                if trim(stderr@).len() == 0 {
                    r.error is None
                } else {
                    r.error == Some(stderr)
                }
            } else {
                r.error is Some && r.error->0@ == (if trim(stderr@).len() == 0 {
                    "SSH command exited with code "@ + crate::display_actions::signed_dec(
                        exit_code as int,
                    )
                } else {
                    stderr@
                })
            }),
        },
{
    match outcome {
        SshExecOutcome::SessionFailed(e) => SshExecResult {
            success: false,
            output: String::new(),
            error: Some(e),
        },
        SshExecOutcome::ChannelFailed(e) => SshExecResult {
            success: false,
            output: String::new(),
            error: Some(concat("SSH channel open failed: ", e.as_str())),
        },
        SshExecOutcome::ExecFailed(e) => SshExecResult {
            success: false,
            output: String::new(),
            error: Some(concat("SSH exec failed: ", e.as_str())),
        },
        SshExecOutcome::Finished { stdout, stderr, exit_code } => {
            let blank = chars_of(crate::text::trim_str(stderr.as_str()).as_str()).len() == 0;
            if exit_code == 0 {
                SshExecResult {
                    success: true,
                    output: stdout,
                    error: if blank {
                        None
                    } else {
                        Some(stderr)
                    },
                }
            } else {
                let error = if blank {
                    let code = crate::display_actions::signed_string(exit_code);
                    concat("SSH command exited with code ", code.as_str())
                } else {
                    stderr
                };
                SshExecResult { success: false, output: stdout, error: Some(error) }
            }
        },
    }
}

} // verus!
