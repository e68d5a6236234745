//! Outcomes of short-lived external commands.

use vstd::prelude::*;

use crate::text::{decimal, push_decimal};

verus! {

/// How an external command failed.
#[derive(Debug, Clone, Copy, PartialEq, Eq, Structural)]
pub enum ErrorKind {
    Io,
    Failed,
    Timeout,
    OutputLimit,
}

/// A failed external command, with what it wrote before failing.
#[derive(Debug, Clone, PartialEq, Eq)]
pub struct CommandError {
    pub kind: ErrorKind,
    pub command: String,
    pub message: String,
    pub stdout: String,
    pub stderr: String,
    pub exit_code: Option<i32>,
}

/// How a command error reads: `command: message`, then `: stderr` (trimmed) where stderr is not blank.
pub open spec fn error_text(e: CommandError) -> Seq<char> {
    let head = e.command@ + ": "@ + e.message@;
    if crate::text::trim(e.stderr@).len() == 0 {
        head
    } else {
        head + ": "@ + crate::text::trim(e.stderr@)
    }
}

impl CommandError {
    /// The error as text: `command: message`, then `: stderr` where the command wrote to stderr.
    pub fn to_string(&self) -> (s: String)
        ensures
            s@ == error_text(*self),
    {
        let mut s = String::from_str(self.command.as_str());
        s.append(": ");
        s.append(self.message.as_str());
        let stderr = crate::text::trimmed(self.stderr.as_str());
        if !stderr.as_str().is_empty() {
            s.append(": ");
            s.append(stderr.as_str());
        }
        s
    }
}


/// How a watched command ended, as far as the watcher saw.
#[derive(Debug, Clone, PartialEq, Eq)]
pub enum Finish {
    /// The command exited; `status` is its exit status as shown.
    Exited { success: bool, status: String },
    /// Waiting for the command failed.
    WaitFailed(String),
    /// The command ran past its time limit of `millis` milliseconds.
    TimedOut(u64),
    /// The command wrote more than the limit while it ran.
    OutputTooLarge,
}

/// The message for output over the limit.
pub open spec fn output_limit_message() -> Seq<char> {
    "output exceeded 8 MiB per stream"@
}

/// `message`, with the cleanup failure noted where there was one.
pub open spec fn with_cleanup(message: Seq<char>, cleanup: Option<String>) -> Seq<char> {
    match cleanup {
        Some(c) => message + "; process cleanup failed: "@ + c@,
        None => message,
    }
}

/// The failure of a command, if it failed: how it ended, whether either
/// output stream was cut at the limit, and how cleaning up its processes went.
/// A command that exited successfully with whole output did not fail, whatever
/// the cleanup; a cleanup failure is noted on every other failure but a wait failure.
pub open spec fn failure_spec(
    finish: Finish,
    out_cut: bool,
    err_cut: bool,
    cleanup: Option<String>,
) -> Option<(ErrorKind, Seq<char>)> {
    match finish {
        Finish::WaitFailed(m) => Some((ErrorKind::Io, m@)),
        Finish::TimedOut(ms) => Some(
            (
                ErrorKind::Timeout,
                with_cleanup("timed out after "@ + decimal(ms as nat) + " ms"@, cleanup),
            ),
        ),
        Finish::OutputTooLarge => Some(
            (ErrorKind::OutputLimit, with_cleanup(output_limit_message(), cleanup)),
        ),
        Finish::Exited { success, status } => if !success {
            Some((ErrorKind::Failed, with_cleanup("exited with "@ + status@, cleanup)))
        } else if out_cut || err_cut {
            Some((ErrorKind::OutputLimit, with_cleanup(output_limit_message(), cleanup)))
        } else {
            None
        },
    }
}

fn note_cleanup(message: &mut String, cleanup: &Option<String>)
    ensures
        final(message)@ == with_cleanup(old(message)@, *cleanup),
{
    if let Some(c) = cleanup {
        message.append("; process cleanup failed: ");
        message.append(c.as_str());
    }
}

/// The failure of a watched command, if it failed.
pub fn failure_of(finish: &Finish, out_cut: bool, err_cut: bool, cleanup: &Option<String>) -> (r:
    Option<(ErrorKind, String)>)
    ensures
        match failure_spec(*finish, out_cut, err_cut, *cleanup) {
            Some((k, m)) => r matches Some((kind, message)) && kind == k && message@ == m,
            None => r is None,
        },
{
    match finish {
        Finish::WaitFailed(m) => Some((ErrorKind::Io, m.clone())),
        Finish::TimedOut(ms) => {
            let mut m = String::from_str("timed out after ");
            push_decimal(&mut m, *ms);
            m.append(" ms");
            note_cleanup(&mut m, cleanup);
            Some((ErrorKind::Timeout, m))
        },
        Finish::OutputTooLarge => {
            let mut m = String::from_str("output exceeded 8 MiB per stream");
            note_cleanup(&mut m, cleanup);
            Some((ErrorKind::OutputLimit, m))
        },
        Finish::Exited { success, status } => {
            if !*success {
                let mut m = String::from_str("exited with ");
                m.append(status.as_str());
                note_cleanup(&mut m, cleanup);
                Some((ErrorKind::Failed, m))
            } else if out_cut || err_cut {
                let mut m = String::from_str("output exceeded 8 MiB per stream");
                note_cleanup(&mut m, cleanup);
                Some((ErrorKind::OutputLimit, m))
            } else {
                None
            }
        },
    }
}

/// A command as shown in errors: the program, a space, and the arguments separated by spaces.
pub open spec fn description_spec(program: Seq<char>, args: Seq<String>) -> Seq<char> {
    program + " "@ + joined_args(args)
}

/// The arguments separated by spaces.
pub open spec fn joined_args(args: Seq<String>) -> Seq<char>
    decreases args.len(),
{
    if args.len() == 0 {
        Seq::empty()
    } else if args.len() == 1 {
        args[0]@
    } else {
        joined_args(args.drop_last()) + " "@ + args.last()@
    }
}

/// A command as shown in errors.
pub fn describe(program: &str, args: &Vec<String>) -> (r: String)
    ensures
        r@ == description_spec(program@, args@),
{
    let mut r = String::from_str(program);
    r.append(" ");
    let ghost head = r@;
    let mut i: usize = 0;
    while i < args.len()
        invariant
            i <= args@.len(),
            r@ == head + joined_args(args@.take(i as int)),
        decreases args.len() - i,
    {
        if i > 0 {
            r.append(" ");
        }
        r.append(args[i].as_str());
        assert(args@.take(i + 1).drop_last() =~= args@.take(i as int));
        if i == 0 {
            assert(args@.take(1)[0] == args@[0]);
        }
        i += 1;
    }
    assert(args@.take(i as int) =~= args@);
    r
}

/// The most a watched command may write to each output stream, in bytes.
pub const OUTPUT_LIMIT: u64 = 8388608;

/// What one look at a running command found.
#[derive(Debug, Clone, PartialEq, Eq)]
pub enum Poll {
    /// It exited; `status` is its exit status as shown.
    Exited { success: bool, status: String },
    /// It is still running.
    Running,
    /// Looking at it failed.
    WaitFailed(String),
}

/// How watching ends after one look, or nothing while it goes on: an exit or
/// a failed look ends it; a running command is stopped at the deadline, then
/// when either output stream has grown past the limit or the sizes could not
/// be read.
pub open spec fn watch_spec(
    poll: Poll,
    past_deadline: bool,
    sizes: Result<(u64, u64), String>,
    timeout_ms: u64,
) -> Option<Finish> {
    match poll {
        Poll::Exited { success, status } => Some(Finish::Exited { success, status }),
        Poll::WaitFailed(m) => Some(Finish::WaitFailed(m)),
        Poll::Running => if past_deadline {
            Some(Finish::TimedOut(timeout_ms))
        } else {
            match sizes {
                Ok((out, err)) => if out > OUTPUT_LIMIT || err > OUTPUT_LIMIT {
                    Some(Finish::OutputTooLarge)
                } else {
                    None
                },
                Err(m) => Some(Finish::WaitFailed(m)),
            }
        },
    }
}

/// How watching ends after one look, or nothing while it goes on.
pub fn watch_step(
    poll: Poll,
    past_deadline: bool,
    sizes: Result<(u64, u64), String>,
    timeout_ms: u64,
) -> (r: Option<Finish>)
    ensures
        r == watch_spec(poll, past_deadline, sizes, timeout_ms),
{
    match poll {
        Poll::Exited { success, status } => Some(Finish::Exited { success, status }),
        Poll::WaitFailed(m) => Some(Finish::WaitFailed(m)),
        Poll::Running => if past_deadline {
            Some(Finish::TimedOut(timeout_ms))
        } else {
            match sizes {
                Ok((out, err)) => if out > OUTPUT_LIMIT || err > OUTPUT_LIMIT {
                    Some(Finish::OutputTooLarge)
                } else {
                    None
                },
                Err(m) => Some(Finish::WaitFailed(m)),
            }
        },
    }
}

} // verus!
