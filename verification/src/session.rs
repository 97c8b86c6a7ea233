use vstd::prelude::*;

use crate::error::CompressError;
use crate::timecode::{
    parse_duration_line, parse_progress_line, spec_duration_of_line, spec_progress_of_line,
};

verus! {

// One encoder run, from spawn to terminal state.  The shell owns the child
// process and its streams; this module owns every decision: what the
// observed output lines mean, when a run counts as succeeded, and what has
// to be torn down on cancellation.  The shell reports plain facts (a line
// was read; the process exited so-and-so; the output file has this size)
// and performs the actions the session hands back.

/// The states of one encoder run.
#[derive(Clone, Copy, PartialEq, Eq, Structural, Debug)]
pub enum SessionState {
    /// Arguments assembled, process not yet started.
    Created,
    /// The external process is running and its output is being consumed.
    Running,
    /// The process exited successfully and the declared output is non-empty.
    Succeeded,
    /// The process failed, or exited cleanly but left no usable output.
    Failed,
    /// The caller aborted the run before completion.
    Cancelled,
}

/// One planned encoder run: input, output (absent for a pure metadata
/// probe), the argument list, and the caller's correlation id, if any.
pub struct EncoderInvocation {
    pub input_path: Vec<u8>,
    pub output_path: Option<Vec<u8>>,
    pub args: Vec<String>,
    pub video_id: Option<String>,
}

/// What the shell must do after a cancellation.
pub struct Teardown {
    /// Terminate the child process.  Always set when the session was
    /// running: no encoder process may outlive its cancelled session.
    pub kill_process: bool,
    /// Delete the (possibly partial) output file of the invocation.
    pub remove_output: bool,
}

/// Whether the exit status and the resulting output size, taken by
/// themselves, point at a success: the process must exit cleanly and the
/// declared output file must exist and be non-empty.  A recorded
/// fatal-error signature additionally fails the run, whatever these say.
pub open spec fn spec_run_succeeded(exit_success: bool, output_len: Option<u64>) -> bool {
    exit_success && (output_len matches Some(n) && n > 0)
}

/// A recognized fatal-error signature: a diagnostic line opening with
/// `Error` (bytes 69, 114, 114, 111, 114).
pub open spec fn spec_is_fatal_line(line: Seq<u8>) -> bool {
    line.len() >= 5 && line[0] == 69 && line[1] == 114 && line[2] == 114 && line[3] == 111
        && line[4] == 114
}

/// One end-to-end encoder run and everything observed of it so far.
pub struct Session {
    pub invocation: EncoderInvocation,
    pub state: SessionState,
    /// The total media duration, from the first metadata line reporting one.
    pub duration_millis: Option<u64>,
    /// The elapsed encoding time, from the latest progress line.
    pub progress_millis: Option<u64>,
    /// The latest line carrying a recognized fatal-error signature.
    pub fatal_diagnostic: Option<Vec<u8>>,
    /// The size of the output file, as reported when the run finished.
    pub output_size: Option<u64>,
    /// Whether the run failed because the process could not be started at
    /// all, as opposed to failing while or after running.
    pub spawn_failed: bool,
}

impl Session {
    /// A fresh session around an assembled invocation.
    pub fn new(invocation: EncoderInvocation) -> (r: Session)
        ensures
            r.invocation == invocation,
            r.state == SessionState::Created,
            r.duration_millis is None,
            r.progress_millis is None,
            r.fatal_diagnostic is None,
            r.output_size is None,
            !r.spawn_failed,
    {
        Session {
            invocation,
            state: SessionState::Created,
            duration_millis: None,
            progress_millis: None,
            fatal_diagnostic: None,
            output_size: None,
            spawn_failed: false,
        }
    }

    /// Records that the external process was spawned.
    pub fn start(&mut self)
        requires
            old(self).state == SessionState::Created,
        ensures
            final(self).state == SessionState::Running,
            final(self).invocation == old(self).invocation,
            final(self).duration_millis == old(self).duration_millis,
            final(self).progress_millis == old(self).progress_millis,
            final(self).fatal_diagnostic == old(self).fatal_diagnostic,
            final(self).output_size == old(self).output_size,
            final(self).spawn_failed == old(self).spawn_failed,
    {
        self.state = SessionState::Running;
    }

    /// Records that the external process could not be started at all: the
    /// session fails, and remembers that the failure was a spawn failure so
    /// that completion surfaces it as its own class.
    pub fn mark_spawn_failure(&mut self) -> (e: CompressError)
        requires
            old(self).state == SessionState::Created,
        ensures
            final(self).state == SessionState::Failed,
            final(self).spawn_failed,
            final(self).invocation == old(self).invocation,
            final(self).duration_millis == old(self).duration_millis,
            final(self).progress_millis == old(self).progress_millis,
            final(self).fatal_diagnostic == old(self).fatal_diagnostic,
            final(self).output_size == old(self).output_size,
            e == CompressError::ProcessSpawnFailure,
    {
        self.state = SessionState::Failed;
        self.spawn_failed = true;
        CompressError::ProcessSpawnFailure
    }

    /// Consumes one line of the encoder's diagnostic output.
    ///
    /// The first line announcing a total duration fixes it; each progress
    /// line supersedes the last; a line with a fatal-error signature is kept
    /// as the diagnostic; any line matching nothing is ignored, never fatal.
    pub fn observe_line(&mut self, line: &[u8])
        requires
            old(self).state == SessionState::Running,
        ensures
            final(self).state == SessionState::Running,
            final(self).invocation == old(self).invocation,
            final(self).output_size == old(self).output_size,
            final(self).spawn_failed == old(self).spawn_failed,
            final(self).duration_millis == (if old(self).duration_millis is None {
                spec_duration_of_line(line@)
            } else {
                old(self).duration_millis
            }),
            final(self).progress_millis == (if spec_progress_of_line(line@) is Some {
                spec_progress_of_line(line@)
            } else {
                old(self).progress_millis
            }),
            spec_is_fatal_line(line@) ==> (final(self).fatal_diagnostic matches Some(d) && d@
                == line@),
            !spec_is_fatal_line(line@) ==> final(self).fatal_diagnostic == old(
                self,
            ).fatal_diagnostic,
    {
        if self.duration_millis.is_none() {
            self.duration_millis = parse_duration_line(line);
        }
        if let Some(p) = parse_progress_line(line) {
            self.progress_millis = Some(p);
        }
        let n = line.len();
        if n >= 5 && line[0] == 69 && line[1] == 114 && line[2] == 114 && line[3] == 111
            && line[4] == 114 {
            self.fatal_diagnostic = Some(vstd::slice::slice_to_vec(line));
        }
    }

    /// Settles the run from the process's exit status and the size of the
    /// declared output file (`None` when the file is missing; the probe
    /// variant has no output and reports `None` as well).
    ///
    /// The session succeeds exactly when the process exited cleanly, the
    /// output file exists with more than zero bytes, and no line of the
    /// diagnostic stream carried a recognized fatal-error signature; a
    /// clean exit without a usable output file, or after such a line, is a
    /// failure.
    pub fn finish(&mut self, exit_success: bool, output_len: Option<u64>)
        requires
            old(self).state == SessionState::Running,
        ensures
            final(self).state == (if spec_run_succeeded(exit_success, output_len) && old(
                self,
            ).fatal_diagnostic is None {
                SessionState::Succeeded
            } else {
                SessionState::Failed
            }),
            final(self).invocation == old(self).invocation,
            final(self).duration_millis == old(self).duration_millis,
            final(self).progress_millis == old(self).progress_millis,
            final(self).fatal_diagnostic == old(self).fatal_diagnostic,
            final(self).output_size == output_len,
            final(self).spawn_failed == old(self).spawn_failed,
    {
        self.output_size = output_len;
        let ok = match output_len {
            Some(n) => exit_success && n > 0 && self.fatal_diagnostic.is_none(),
            None => false,
        };
        self.state = if ok {
            SessionState::Succeeded
        } else {
            SessionState::Failed
        };
    }

    /// The failure class of a session that did not succeed: a cancellation
    /// is reported as such, a run whose process never started as a spawn
    /// failure, and every other failure as a runtime failure.
    pub open spec fn spec_failure_kind(self) -> CompressError {
        if self.state == SessionState::Cancelled {
            CompressError::Cancelled
        } else if self.spawn_failed {
            CompressError::ProcessSpawnFailure
        } else {
            CompressError::EncoderRuntimeFailure
        }
    }

    /// The single caller-facing diagnostic of a failed or cancelled run:
    /// the failure class's message, followed by the captured fatal-error
    /// text when one was observed.
    pub fn failure_message(&self) -> (r: Vec<u8>)
        requires
            self.state == SessionState::Failed || self.state == SessionState::Cancelled,
        ensures
            r@ == self.spec_failure_kind().spec_message_bytes() + (match self.fatal_diagnostic {
                Some(d) => seq![58u8, 32u8] + d@,
                None => Seq::<u8>::empty(),
            }),
    {
        let kind = match self.state {
            SessionState::Cancelled => CompressError::Cancelled,
            _ => if self.spawn_failed {
                CompressError::ProcessSpawnFailure
            } else {
                CompressError::EncoderRuntimeFailure
            },
        };
        let mut out = kind.message_bytes();
        if let Some(d) = &self.fatal_diagnostic {
            out.push(58u8);
            out.push(32u8);
            crate::assets::push_bytes(&mut out, d.as_slice());
            proof {
                assert(out@ =~= self.spec_failure_kind().spec_message_bytes() + (seq![
                    58u8,
                    32u8,
                ] + self.fatal_diagnostic->0@));
            }
        } else {
            proof {
                assert(out@ =~= self.spec_failure_kind().spec_message_bytes()
                    + Seq::<u8>::empty());
            }
        }
        out
    }

    /// The percentage of the media encoded so far, when both the total
    /// duration and a progress report have been observed: elapsed time over
    /// total duration, capped at 100.
    pub open spec fn spec_progress_percent(self) -> Option<u8> {
        match (self.duration_millis, self.progress_millis) {
            (Some(d), Some(p)) => if d == 0 {
                None
            } else if 100 * (p as int) / (d as int) >= 100 {
                Some(100u8)
            } else {
                Some((100 * (p as int) / (d as int)) as u8)
            },
            _ => None,
        }
    }

    /// Reports how far the encode has come, as a percentage of the total
    /// duration, once both are known.
    pub fn progress_percent(&self) -> (r: Option<u8>)
        ensures
            r == self.spec_progress_percent(),
    {
        match (self.duration_millis, self.progress_millis) {
            (Some(d), Some(p)) => {
                if d == 0 {
                    None
                } else {
                    let scaled: u128 = (p as u128) * 100 / (d as u128);
                    if scaled >= 100 {
                        Some(100)
                    } else {
                        Some(scaled as u8)
                    }
                }
            },
            _ => None,
        }
    }

    /// Cancels the run and says what the shell must tear down.
    ///
    /// Cancelling a running session always demands that the child process
    /// be terminated — no encoder process may remain once cancellation
    /// completes — and that its partial output, if an output was declared,
    /// be removed rather than left for the janitor.
    pub fn cancel(&mut self) -> (t: Teardown)
        requires
            old(self).state == SessionState::Created || old(self).state == SessionState::Running,
        ensures
            final(self).state == SessionState::Cancelled,
            final(self).invocation == old(self).invocation,
            final(self).duration_millis == old(self).duration_millis,
            final(self).progress_millis == old(self).progress_millis,
            final(self).fatal_diagnostic == old(self).fatal_diagnostic,
            final(self).output_size == old(self).output_size,
            final(self).spawn_failed == old(self).spawn_failed,
            t.kill_process == (old(self).state == SessionState::Running),
            t.remove_output == (old(self).state == SessionState::Running
                && old(self).invocation.output_path is Some),
    {
        let was_running = match self.state {
            SessionState::Running => true,
            _ => false,
        };
        self.state = SessionState::Cancelled;
        Teardown {
            kill_process: was_running,
            remove_output: was_running && self.invocation.output_path.is_some(),
        }
    }
}

} // verus!
