//! The process supervisor's lifecycle: one session runs from `Starting`
//! through `Running` and `Draining` to `Stopped`.
//!
//! The surrounding program spawns the child process, runs the pipelines
//! concurrently and reports each pipeline's end here. A pipeline that ends
//! because its stream closed is no error; the first fatal error reported is
//! the one the session surfaces, exactly once, and is never retried.

use vstd::prelude::*;

use crate::error::Error;

verus! {

/// The lifecycle state of one session.
#[derive(Clone, Copy, Debug, PartialEq, Eq, Structural)]
pub enum SessionState {
    /// The process is spawned and the transport connected; no pipeline runs
    /// yet.
    Starting,
    /// All pipelines are active.
    Running,
    /// At least one pipeline has ended; the others finish their cycles.
    Draining,
    /// All pipelines are joined and the session's resources are released.
    Stopped,
}

/// How one pipeline ended.
#[derive(Clone, Copy, Debug, PartialEq, Eq, Structural)]
pub enum PipelineEnd {
    /// The source stream closed normally: the process exited. Not an error.
    StreamClosed,
    /// The pipeline hit a fatal error.
    Failed(Error),
}

/// The supervisor of one session: tracks the live pipelines and the first
/// fatal error any of them reported.
pub struct Supervisor {
    /// Where the session stands in its lifecycle.
    pub state: SessionState,
    /// How many pipelines are still running.
    pub active: usize,
    /// The first fatal error a pipeline reported, if any.
    pub first_error: Option<Error>,
}

impl Supervisor {
    /// Pipelines run only between start and stop, and nothing has failed
    /// before the session runs.
    pub open spec fn wf(self) -> bool {
        &&& self.state == SessionState::Starting ==> self.active == 0 && self.first_error is None
        &&& self.state == SessionState::Running ==> self.active > 0
        &&& self.state == SessionState::Draining ==> self.active > 0
        &&& self.state == SessionState::Stopped ==> self.active == 0
    }

    /// A fresh session, about to start its pipelines.
    pub fn new() -> (s: Supervisor)
        ensures
            s.wf(),
            s.state == SessionState::Starting,
            s.active == 0,
            s.first_error is None,
    {
        Supervisor { state: SessionState::Starting, active: 0, first_error: None }
    }

    /// All pipelines are launched: the session runs.
    pub fn start(&mut self, pipelines: usize)
        requires
            old(self).wf(),
            old(self).state == SessionState::Starting,
            pipelines > 0,
        ensures
            final(self).wf(),
            final(self).state == SessionState::Running,
            final(self).active == pipelines,
            final(self).first_error is None,
    {
        self.state = SessionState::Running;
        self.active = pipelines;
    }

    /// One pipeline ended. A normal stream close reports no error; a fatal
    /// error is kept only if it is the first. When the last pipeline ends
    /// the session stops, otherwise it drains.
    pub fn pipeline_ended(&mut self, end: PipelineEnd)
        requires
            old(self).wf(),
            old(self).state == SessionState::Running || old(self).state == SessionState::Draining,
        ensures
            final(self).wf(),
            final(self).active == old(self).active - 1,
            old(self).active == 1 ==> final(self).state == SessionState::Stopped,
            old(self).active > 1 ==> final(self).state == SessionState::Draining,
            old(self).first_error is Some ==> final(self).first_error == old(self).first_error,
            old(self).first_error is None ==> final(self).first_error == (match end {
                PipelineEnd::StreamClosed => None::<Error>,
                PipelineEnd::Failed(e) => Some(e),
            }),
    {
        self.active = self.active - 1;
        if self.active == 0 {
            self.state = SessionState::Stopped;
        } else {
            self.state = SessionState::Draining;
        }
        if self.first_error.is_none() {
            match end {
                PipelineEnd::StreamClosed => {},
                PipelineEnd::Failed(e) => {
                    self.first_error = Some(e);
                },
            }
        }
    }

    /// The session's outcome, once stopped: the first fatal error, or none
    /// when every pipeline ended with its stream closing normally.
    pub fn session_error(&self) -> (r: Option<Error>)
        requires
            self.state == SessionState::Stopped,
        ensures
            r == self.first_error,
    {
        self.first_error
    }
}

} // verus!
