//! Routing of a record to the sinks of a session, and the capture loop's
//! states. The sinks themselves write and send; here stand the decisions:
//! which sink comes next, and what the loop does on each event.

use vstd::prelude::*;

verus! {

/// A consumer of records.
#[derive(Clone, Copy, PartialEq, Eq, Structural, Debug)]
pub enum SinkKind {
    /// The live tabular display.
    Display,
    /// The capture file.
    File,
    /// The message bus.
    Bus,
}

/// What a sink can fail at. No such failure reaches another sink or the
/// loop.
#[derive(Clone, Copy, PartialEq, Eq, Structural, Debug)]
pub enum SinkError {
    DisplayWrite,
    FileFlush,
    BusPublish,
}

impl SinkKind {
    /// The place of the sink in the fixed order of dispatch.
    pub open spec fn rank(self) -> int {
        match self {
            SinkKind::Display => 0,
            SinkKind::File => 1,
            SinkKind::Bus => 2,
        }
    }

    /// The failure that is logged when this sink fails.
    pub fn failure(self) -> (e: SinkError)
        ensures
            e == match self {
                SinkKind::Display => SinkError::DisplayWrite,
                SinkKind::File => SinkError::FileFlush,
                SinkKind::Bus => SinkError::BusPublish,
            },
    {
        match self {
            SinkKind::Display => SinkError::DisplayWrite,
            SinkKind::File => SinkError::FileFlush,
            SinkKind::Bus => SinkError::BusPublish,
        }
    }
}

/// The active sink set of a session.
#[derive(Clone, Copy, PartialEq, Eq, Structural, Debug)]
pub struct SinkRouter {
    pub display: bool,
    pub file: bool,
    pub bus: bool,
}

impl SinkRouter {
    /// Whether the sink is in the active set.
    pub open spec fn is_active(self, kind: SinkKind) -> bool {
        match kind {
            SinkKind::Display => self.display,
            SinkKind::File => self.file,
            SinkKind::Bus => self.bus,
        }
    }

    /// The active sinks in the order of dispatch: display, file, bus.
    pub open spec fn active(self) -> Seq<SinkKind> {
        (if self.display {
            seq![SinkKind::Display]
        } else {
            Seq::empty()
        }) + (if self.file {
            seq![SinkKind::File]
        } else {
            Seq::empty()
        }) + (if self.bus {
            seq![SinkKind::Bus]
        } else {
            Seq::empty()
        })
    }

    /// The first active sink whose rank is `rank` or more.
    pub open spec fn first_from(self, rank: int) -> Option<SinkKind> {
        if rank <= 0 && self.display {
            Some(SinkKind::Display)
        } else if rank <= 1 && self.file {
            Some(SinkKind::File)
        } else if rank <= 2 && self.bus {
            Some(SinkKind::Bus)
        } else {
            None
        }
    }

    /// The sink that follows `done` in a dispatch. The outcome of `done`
    /// has no part in it.
    pub open spec fn next_spec(self, done: SinkKind, failed: bool) -> Option<SinkKind> {
        self.first_from(done.rank() + 1)
    }

    /// The sinks that a dispatch invokes from `cursor` on, where
    /// `outcomes` says of each invoked sink in turn whether it failed
    /// (a sink beyond the end of `outcomes` succeeds).
    pub open spec fn walk(self, cursor: Option<SinkKind>, outcomes: Seq<bool>) -> Seq<SinkKind>
        decreases
            match cursor {
                Some(kind) => 3 - kind.rank(),
                None => 0,
            },
    {
        match cursor {
            None => Seq::empty(),
            Some(kind) => {
                let failed = outcomes.len() > 0 && outcomes[0];
                let rest = if outcomes.len() > 0 {
                    outcomes.drop_first()
                } else {
                    outcomes
                };
                match self.next_spec(kind, failed) {
                    None => seq![kind],
                    Some(next) => if next.rank() > kind.rank() {
                        seq![kind] + self.walk(Some(next), rest)
                    } else {
                        seq![kind]
                    },
                }
            },
        }
    }

    /// The active sinks, in the order in which a dispatch invokes them.
    pub fn active_sinks(&self) -> (sinks: Vec<SinkKind>)
        ensures
            sinks@ == self.active(),
    {
        let mut sinks: Vec<SinkKind> = Vec::new();
        if self.display {
            sinks.push(SinkKind::Display);
        }
        if self.file {
            sinks.push(SinkKind::File);
        }
        if self.bus {
            sinks.push(SinkKind::Bus);
        }
        assert(sinks@ =~= self.active());
        sinks
    }

    /// The sink that a dispatch invokes first, if any sink is active.
    pub fn first(&self) -> (kind: Option<SinkKind>)
        ensures
            kind == self.first_from(0),
    {
        if self.display {
            Some(SinkKind::Display)
        } else if self.file {
            Some(SinkKind::File)
        } else if self.bus {
            Some(SinkKind::Bus)
        } else {
            None
        }
    }

    /// The sink that a dispatch invokes after `done`, which failed or did
    /// not: the next active sink in the order, either way.
    pub fn next(&self, done: SinkKind, failed: bool) -> (kind: Option<SinkKind>)
        ensures
            kind == self.next_spec(done, failed),
            kind == self.first_from(done.rank() + 1),
    {
        match done {
            SinkKind::Display => {
                if self.file {
                    Some(SinkKind::File)
                } else if self.bus {
                    Some(SinkKind::Bus)
                } else {
                    None
                }
            },
            SinkKind::File => {
                if self.bus {
                    Some(SinkKind::Bus)
                } else {
                    None
                }
            },
            SinkKind::Bus => None,
        }
    }
}

/// The state of the capture loop.
#[derive(Clone, Copy, PartialEq, Eq, Structural, Debug)]
pub enum LoopState {
    Running,
    Stopped,
}

/// What can happen to the capture loop.
#[derive(Clone, Copy, PartialEq, Eq, Structural, Debug)]
pub enum LoopEvent {
    /// The source handed over a frame.
    FramePulled,
    /// One pull from the source failed.
    SourceFailed,
    /// A sink failed on the current frame.
    SinkFailed(SinkKind),
    /// The process was told to end.
    Terminated,
}

/// What the loop does on an event.
#[derive(Clone, Copy, PartialEq, Eq, Structural, Debug)]
pub enum LoopAction {
    /// Decode the frame and dispatch its record to the active sinks.
    Dispatch,
    /// Log the source's error and pull the next frame.
    LogSourceError,
    /// Log the sink's failure and go on with the dispatch.
    LogSinkError(SinkError),
    /// Leave the loop.
    Halt,
}

/// The loop's rule: a running loop keeps running on a frame, on a failed
/// pull and on a failed sink, and stops only when the process is told to
/// end; a stopped loop stays stopped.
pub open spec fn step_spec(state: LoopState, event: LoopEvent) -> (LoopState, LoopAction) {
    match state {
        LoopState::Stopped => (LoopState::Stopped, LoopAction::Halt),
        LoopState::Running => match event {
            LoopEvent::FramePulled => (LoopState::Running, LoopAction::Dispatch),
            LoopEvent::SourceFailed => (LoopState::Running, LoopAction::LogSourceError),
            LoopEvent::SinkFailed(kind) => (
                LoopState::Running,
                LoopAction::LogSinkError(
                    match kind {
                        SinkKind::Display => SinkError::DisplayWrite,
                        SinkKind::File => SinkError::FileFlush,
                        SinkKind::Bus => SinkError::BusPublish,
                    },
                ),
            ),
            LoopEvent::Terminated => (LoopState::Stopped, LoopAction::Halt),
        },
    }
}

/// The state after an event, and what the loop does on it.
pub fn step(state: LoopState, event: LoopEvent) -> (next: (LoopState, LoopAction))
    ensures
        next == step_spec(state, event),
{
    match state {
        LoopState::Stopped => (LoopState::Stopped, LoopAction::Halt),
        LoopState::Running => match event {
            LoopEvent::FramePulled => (LoopState::Running, LoopAction::Dispatch),
            LoopEvent::SourceFailed => (LoopState::Running, LoopAction::LogSourceError),
            LoopEvent::SinkFailed(kind) => (
                LoopState::Running,
                LoopAction::LogSinkError(kind.failure()),
            ),
            LoopEvent::Terminated => (LoopState::Stopped, LoopAction::Halt),
        },
    }
}

/// A capture session under way: the loop's state and the sinks that each
/// record is dispatched to.
#[derive(Clone, Copy, PartialEq, Eq, Structural, Debug)]
pub struct CaptureLoop {
    pub state: LoopState,
    pub router: SinkRouter,
}

impl CaptureLoop {
    /// Whether the loop goes on pulling frames.
    pub fn is_running(&self) -> (running: bool)
        ensures
            running == (self.state == LoopState::Running),
    {
        match self.state {
            LoopState::Running => true,
            LoopState::Stopped => false,
        }
    }

    /// Takes an event: moves to the state that follows and says what to do.
    /// The sinks stay as they are.
    pub fn on_event(&mut self, event: LoopEvent) -> (action: LoopAction)
        ensures
            (final(self).state, action) == step_spec(old(self).state, event),
            final(self).router == old(self).router,
    {
        let (next, action) = step(self.state, event);
        self.state = next;
        action
    }
}

/// Sink isolation. Whatever each sink's outcome, a dispatch invokes every
/// active sink once, in the fixed order; a sink's failure leaves the loop
/// running, and the next frame is dispatched as any other.
pub proof fn lemma_sink_isolation(router: SinkRouter, outcomes: Seq<bool>, failing: SinkKind)
    ensures
        router.walk(router.first_from(0), outcomes) == router.active(),
        forall|kind: SinkKind| router.is_active(kind) ==> router.active().contains(kind),
        step_spec(LoopState::Running, LoopEvent::SinkFailed(failing)).0 == LoopState::Running,
        step_spec(
            step_spec(LoopState::Running, LoopEvent::SinkFailed(failing)).0,
            LoopEvent::FramePulled,
        ) == (LoopState::Running, LoopAction::Dispatch),
{
    reveal_with_fuel(SinkRouter::walk, 4);
    assert(router.walk(router.first_from(0), outcomes) =~= router.active());
    assert forall|kind: SinkKind| router.is_active(kind) implies router.active().contains(
        kind,
    ) by {
        let a = router.active();
        match kind {
            SinkKind::Display => {
                assert(a[0] == kind);
            },
            SinkKind::File => {
                let i = if router.display { 1int } else { 0int };
                assert(a[i] == kind);
            },
            SinkKind::Bus => {
                assert(a[a.len() - 1] == kind);
            },
        }
    }
}

} // verus!
