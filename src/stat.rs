//! The measurement session: launch a command under a two-pipe barrier,
//! arm one counter per requested event on the child, release the child,
//! wait for it to exit, stop the counters and report the deltas.
//!
//! [`Session`] makes every decision of the session and none of its calls:
//! [`Session::step`] takes what the last action produced and returns the
//! next action. Whoever drives it forks the child (which signals readiness
//! with one byte, then blocks until it reads the one-byte release), makes
//! the counter calls, writes the release byte and waits for the child.
use crate::catalog::{catalog, StatEvent};
use crate::error::SysErr;
use crate::event::{spec_open_request, Event};
use crate::fd::{
    ioctl_req, read_outcome, IoctlArg, IoctlRequest, OpenRequest, ReadRequest, COUNT_WIDTH,
};
use crate::ioctl::IoctlCommand;
use vstd::prelude::*;

verus! {

/// What to measure: the events (none means the default set) and the
/// command line of the program to run.
#[derive(Debug)]
pub struct StatOptions {
    pub event: Vec<StatEvent>,
    pub command: Vec<String>,
}

/// The events measured when none are requested: the whole catalog.
pub open spec fn default_events() -> Seq<StatEvent> {
    catalog()
}

/// The events a session measures for the requested list `given`.
pub open spec fn requested_events(given: Seq<StatEvent>) -> Seq<StatEvent> {
    if given.len() == 0 {
        default_events()
    } else {
        given
    }
}

impl StatOptions {
    /// Replaces an empty event list by the default set.
    pub fn fill_default_events(&mut self)
        ensures
            final(self).event@ == requested_events(old(self).event@),
            final(self).command@ == old(self).command@,
    {
        if self.event.len() == 0 {
            self.event.push(StatEvent::Cycles);
            self.event.push(StatEvent::Instructions);
            self.event.push(StatEvent::TaskClock);
            self.event.push(StatEvent::ContextSwitches);
            self.event.push(StatEvent::L1DCacheRead);
            self.event.push(StatEvent::L1DCacheWrite);
            self.event.push(StatEvent::L1DCacheReadMiss);
            self.event.push(StatEvent::L1ICacheReadMiss);
            assert(self.event@ =~= default_events());
        }
    }
}

/// The two snapshots of one event's counter over a run.
#[derive(Clone, Copy, Debug, PartialEq, Eq, Structural)]
pub struct Counter {
    pub event: StatEvent,
    pub start: i64,
    pub stop: i64,
}

impl Counter {
    /// The measured value: `stop - start`.
    pub open spec fn spec_delta(&self) -> int {
        self.stop - self.start
    }

    /// The measured value of the run.
    pub fn delta(&self) -> (r: i128)
        ensures
            r == self.spec_delta(),
    {
        self.stop as i128 - self.start as i128
    }

    /// A task-clock count (nanoseconds) in hundredths of a millisecond.
    pub fn hundredths_of_ms(&self) -> (r: i128)
        ensures
            self.spec_delta() >= 0 ==> r == self.spec_delta() / 10_000,
            self.spec_delta() < 0 ==> r == 0,
    {
        let d = self.delta();
        if d < 0 {
            0
        } else {
            d / 10_000
        }
    }

    /// The share of `elapsed_ns` wall-clock nanoseconds that a task-clock
    /// count (CPU nanoseconds) covers, in thousandths; none without elapsed
    /// time or with a negative count.
    pub fn utilization_thousandths(&self, elapsed_ns: u64) -> (r: Option<i128>)
        ensures
            elapsed_ns == 0 || self.spec_delta() < 0 <==> r is None,
            r matches Some(u) ==> u == self.spec_delta() * 1000 / (elapsed_ns as int),
    {
        let d = self.delta();
        if elapsed_ns == 0 || d < 0 {
            return None;
        }
        Some(d * 1000 / (elapsed_ns as i128))
    }

    /// The open calls for the counters of a run of process `pid`: one per
    /// requested event, in order, after an empty request has been replaced
    /// by the default set.
    pub fn counters(options: &mut StatOptions, pid: i32) -> (r: Vec<OpenRequest>)
        ensures
            final(options).event@ == requested_events(old(options).event@),
            final(options).command@ == old(options).command@,
            r@.len() == final(options).event@.len(),
            forall|i: int|
                0 <= i < r@.len() ==> spec_open_request(
                    #[trigger] final(options).event@[i],
                    Some(pid),
                    r@[i],
                ),
    {
        options.fill_default_events();
        let mut out: Vec<OpenRequest> = Vec::new();
        let mut i: usize = 0;
        while i < options.event.len()
            invariant
                i <= options.event@.len(),
                out@.len() == i,
                forall|j: int|
                    0 <= j < i ==> spec_open_request(
                        #[trigger] options.event@[j],
                        Some(pid),
                        out@[j],
                    ),
            decreases options.event@.len() - i,
        {
            out.push(Event::open_request(options.event[i], Some(pid)));
            i = i + 1;
        }
        out
    }
}

/// Why a session ended without a report.
#[derive(Clone, Copy, Debug, PartialEq, Eq, Structural)]
pub enum SessionError {
    /// The child process could not be created.
    Launch,
    /// A handshake byte was not transferred exactly once.
    Handshake,
    /// A counter of the given event could not be opened or controlled.
    Counter(StatEvent, SysErr),
    /// Waiting for the child failed.
    Wait,
    /// An input arrived that the session was not waiting for.
    Protocol,
}

/// The result of a completed session.
#[derive(Debug)]
pub struct Report {
    /// The snapshots of each requested event, in request order.
    pub counters: Vec<Counter>,
    /// Wall-clock nanoseconds from the release of the child to its exit.
    pub elapsed_ns: u64,
}

/// Where the session stands.
#[derive(Clone, Copy, Debug, PartialEq, Eq, Structural)]
pub enum Phase {
    /// Waiting for the child to be created.
    Launching,
    /// The child exists and is about to signal readiness.
    AwaitingReady,
    /// Opening the counters on the child, one per event.
    Opening,
    /// Taking the start snapshots.
    Starting,
    /// Every counter is armed; the release byte is being written.
    Releasing,
    /// The child runs the command.
    Running,
    /// The child has exited; taking the stop snapshots.
    Stopping,
    /// Reaping the child after an error, before reporting it.
    Reaping,
    /// The session ended with a report.
    Reported,
    /// The session ended with an error.
    Failed,
}

/// What the driver reports back after an action.
#[derive(Debug)]
pub enum Input {
    /// The process id of the new child, or a negative value on failure.
    Launched(i32),
    /// The number of bytes read from the readiness pipe.
    Ready(usize),
    /// The return value of the counter-open call.
    Opened(i64),
    /// The return value of a control call.
    Controlled(i32),
    /// The return value of a read of a count, and the bytes read.
    ReadCount(isize, [u8; 8]),
    /// The number of bytes written on the release pipe, and the wall-clock
    /// time in nanoseconds taken at that write.
    Released(usize, u64),
    /// The return value of the wait for the child, and the wall-clock time
    /// in nanoseconds taken after it.
    Exited(i32, u64),
}

/// What the driver does next.
#[derive(Debug)]
pub enum Action {
    /// Fork the command as a child held at the barrier.
    Launch,
    /// Read the child's one-byte readiness signal.
    AwaitReady,
    /// Open a counter.
    Open(OpenRequest),
    /// Make a control call.
    Control(IoctlRequest),
    /// Read a count.
    Read(ReadRequest),
    /// Write the one-byte release and take the time.
    Release,
    /// Close the release pipe and wait for the child to exit.
    Wait(i32),
    /// The session is over: print the report.
    Report(Report),
    /// The session is over: report the error.
    Fail(SessionError),
}

/// The state of a session, as the contracts see it.
pub struct SessionView {
    pub phase: Phase,
    pub kinds: Seq<StatEvent>,
    pub pid: i32,
    /// The descriptors of the counters opened so far, in request order.
    pub fds: Seq<i32>,
    pub starts: Seq<i64>,
    pub stops: Seq<i64>,
    /// A snapshot's control call succeeded and its read is pending.
    pub reading: bool,
    pub release_ns: u64,
    pub elapsed_ns: u64,
    /// The error to report once the child has been reaped.
    pub error: SessionError,
}

/// The child exists, has not been reaped, and may still be held at the
/// barrier.
pub open spec fn before_release(p: Phase) -> bool {
    p == Phase::AwaitingReady || p == Phase::Opening || p == Phase::Starting || p
        == Phase::Releasing
}

/// How a session in state `s` ends after `err`: a child that has not been
/// reaped is waited for first, keeping the first error; otherwise the error
/// is reported at once.
pub open spec fn aborted(s: SessionView, err: SessionError, t: SessionView, a: Action) -> bool {
    if before_release(s.phase) || s.phase == Phase::Running || s.phase == Phase::Reaping {
        &&& a == Action::Wait(s.pid)
        &&& t == SessionView {
            phase: Phase::Reaping,
            reading: false,
            error: if s.phase == Phase::Reaping {
                s.error
            } else {
                err
            },
            ..s
        }
    } else {
        &&& a == Action::Fail(err)
        &&& t == SessionView { phase: Phase::Failed, reading: false, ..s }
    }
}

/// The control call that begins a snapshot of counter `i`: enable while
/// starting, disable while stopping.
pub open spec fn snapshot_control(s: SessionView, i: int, start: bool) -> Action {
    Action::Control(
        ioctl_req(
            s.fds[i],
            if start {
                IoctlCommand::Enable
            } else {
                IoctlCommand::Disable
            },
            IoctlArg::Zero,
        ),
    )
}

/// Once the child is ready, or a counter has been opened: open the next
/// counter, or, once all are open, begin the first start snapshot.
pub open spec fn opened_next(s: SessionView, t: SessionView, a: Action) -> bool {
    if s.fds.len() < s.kinds.len() {
        &&& a matches Action::Open(req) && spec_open_request(
            s.kinds[s.fds.len() as int],
            Some(s.pid),
            req,
        )
        &&& t == SessionView { phase: Phase::Opening, ..s }
    } else {
        &&& a == snapshot_control(s, 0, true)
        &&& t == SessionView { phase: Phase::Starting, ..s }
    }
}

/// A snapshot read value `v`: record it, then begin the next snapshot, or
/// release the child after the last start snapshot, or report after the
/// last stop snapshot.
pub open spec fn snapshot_taken(s: SessionView, v: i64, t: SessionView, a: Action) -> bool {
    if s.phase == Phase::Starting {
        let u = SessionView { starts: s.starts.push(v), reading: false, ..s };
        if u.starts.len() < u.kinds.len() {
            a == snapshot_control(u, u.starts.len() as int, true) && t == u
        } else {
            a == Action::Release && t == SessionView { phase: Phase::Releasing, ..u }
        }
    } else {
        let u = SessionView { stops: s.stops.push(v), reading: false, ..s };
        if u.stops.len() < u.kinds.len() {
            a == snapshot_control(u, u.stops.len() as int, false) && t == u
        } else {
            &&& a matches Action::Report(r) && report_of(u, r)
            &&& t == SessionView { phase: Phase::Reported, ..u }
        }
    }
}

/// The counter whose snapshot is being taken.
pub open spec fn current(s: SessionView) -> int {
    if s.phase == Phase::Starting {
        s.starts.len() as int
    } else {
        s.stops.len() as int
    }
}

/// One step of the session: from state `s`, `input` leads to state `t`
/// and action `a`.
pub open spec fn step_spec(s: SessionView, input: Input, t: SessionView, a: Action) -> bool {
    let snapshotting = s.phase == Phase::Starting || s.phase == Phase::Stopping;
    match input {
        Input::Launched(pid) => if s.phase != Phase::Launching {
            aborted(s, SessionError::Protocol, t, a)
        } else if pid > 0 {
            a == Action::AwaitReady && t == SessionView { phase: Phase::AwaitingReady, pid, ..s }
        } else {
            a == Action::Fail(SessionError::Launch) && t == SessionView {
                phase: Phase::Failed,
                ..s
            }
        },
        Input::Ready(m) => if s.phase != Phase::AwaitingReady {
            aborted(s, SessionError::Protocol, t, a)
        } else if m != 1 {
            aborted(s, SessionError::Handshake, t, a)
        } else {
            opened_next(s, t, a)
        },
        Input::Opened(ret) => if s.phase != Phase::Opening {
            aborted(s, SessionError::Protocol, t, a)
        } else if 0 <= ret <= i32::MAX {
            opened_next(SessionView { fds: s.fds.push(ret as i32), ..s }, t, a)
        } else {
            aborted(
                s,
                SessionError::Counter(s.kinds[s.fds.len() as int], SysErr::OpenFail),
                t,
                a,
            )
        },
        Input::Controlled(ret) => if !snapshotting || s.reading {
            aborted(s, SessionError::Protocol, t, a)
        } else if ret >= 0 {
            &&& a == Action::Read(ReadRequest { fd: s.fds[current(s)], len: COUNT_WIDTH })
            &&& t == SessionView { reading: true, ..s }
        } else {
            aborted(s, SessionError::Counter(s.kinds[current(s)], SysErr::IoFail), t, a)
        },
        Input::ReadCount(m, buf) => if !snapshotting || !s.reading {
            aborted(s, SessionError::Protocol, t, a)
        } else {
            match read_outcome(m, buf@) {
                Ok(v) => snapshot_taken(s, v, t, a),
                Err(e) => aborted(s, SessionError::Counter(s.kinds[current(s)], e), t, a),
            }
        },
        Input::Released(m, time) => if s.phase != Phase::Releasing {
            aborted(s, SessionError::Protocol, t, a)
        } else if m != 1 {
            aborted(s, SessionError::Handshake, t, a)
        } else {
            a == Action::Wait(s.pid) && t == SessionView {
                phase: Phase::Running,
                release_ns: time,
                ..s
            }
        },
        Input::Exited(ret, time) => if s.phase == Phase::Reaping {
            a == Action::Fail(s.error) && t == SessionView { phase: Phase::Failed, ..s }
        } else if s.phase != Phase::Running {
            aborted(s, SessionError::Protocol, t, a)
        } else if ret != s.pid {
            a == Action::Fail(SessionError::Wait) && t == SessionView {
                phase: Phase::Failed,
                ..s
            }
        } else {
            &&& a == snapshot_control(s, 0, false)
            &&& t == SessionView {
                phase: Phase::Stopping,
                elapsed_ns: if time >= s.release_ns {
                    (time - s.release_ns) as u64
                } else {
                    0
                },
                ..s
            }
        },
    }
}

/// `r` holds the snapshots of every event of the session `s`, in request
/// order, and the time from the release to the child's exit.
pub open spec fn report_of(s: SessionView, r: Report) -> bool {
    &&& r.elapsed_ns == s.elapsed_ns
    &&& r.counters@.len() == s.kinds.len()
    &&& forall|i: int|
        0 <= i < r.counters@.len() ==> #[trigger] r.counters@[i] == (Counter {
            event: s.kinds[i],
            start: s.starts[i],
            stop: s.stops[i],
        })
}

/// One measurement session.
pub struct Session {
    kinds: Vec<StatEvent>,
    phase: Phase,
    pid: i32,
    events: Vec<Event>,
    starts: Vec<i64>,
    stops: Vec<i64>,
    reading: bool,
    release_ns: u64,
    elapsed_ns: u64,
    error: SessionError,
}

impl View for Session {
    type V = SessionView;

    closed spec fn view(&self) -> SessionView {
        SessionView {
            phase: self.phase,
            kinds: self.kinds@,
            pid: self.pid,
            fds: self.events@.map_values(|e: Event| e.fd@),
            starts: self.starts@,
            stops: self.stops@,
            reading: self.reading,
            release_ns: self.release_ns,
            elapsed_ns: self.elapsed_ns,
            error: self.error,
        }
    }
}

impl Session {
    /// The invariant of a session: one counter per requested event, opened
    /// in order, and as many snapshots as the phase has taken.
    pub closed spec fn wf(&self) -> bool {
        let n = self.kinds@.len();
        let p = self.phase;
        &&& n > 0
        &&& self.events@.len() <= n
        &&& forall|i: int|
            0 <= i < self.events@.len() ==> (#[trigger] self.events@[i]).event == self.kinds@[i]
        &&& self.starts@.len() <= self.events@.len()
        &&& self.stops@.len() <= self.starts@.len()
        &&& (p == Phase::Launching || p == Phase::AwaitingReady) ==> self.events@.len() == 0
            && self.starts@.len() == 0
        &&& p == Phase::Opening ==> self.events@.len() < n && self.starts@.len() == 0
        &&& p == Phase::Starting ==> self.events@.len() == n && self.starts@.len() < n
            && self.stops@.len() == 0
        &&& (p == Phase::Releasing || p == Phase::Running) ==> self.events@.len() == n
            && self.starts@.len() == n && self.stops@.len() == 0
        &&& p == Phase::Stopping ==> self.events@.len() == n && self.starts@.len() == n
            && self.stops@.len() < n
        &&& p == Phase::Reported ==> self.starts@.len() == n && self.stops@.len() == n
        &&& self.reading ==> (p == Phase::Starting || p == Phase::Stopping)
    }

    /// A session measuring `event` (the default set if it is empty); its
    /// first action launches the child.
    pub fn new(event: Vec<StatEvent>) -> (r: (Session, Action))
        ensures
            r.0.wf(),
            r.0@ == (SessionView {
                phase: Phase::Launching,
                kinds: requested_events(event@),
                pid: 0,
                fds: Seq::empty(),
                starts: Seq::empty(),
                stops: Seq::empty(),
                reading: false,
                release_ns: 0,
                elapsed_ns: 0,
                error: SessionError::Protocol,
            }),
            r.1 is Launch,
    {
        let mut options = StatOptions { event, command: Vec::new() };
        options.fill_default_events();
        let session = Session {
            kinds: options.event,
            phase: Phase::Launching,
            pid: 0,
            events: Vec::new(),
            starts: Vec::new(),
            stops: Vec::new(),
            reading: false,
            release_ns: 0,
            elapsed_ns: 0,
            error: SessionError::Protocol,
        };
        assert(session@.fds =~= Seq::empty());
        assert(session@.starts =~= Seq::empty());
        assert(session@.stops =~= Seq::empty());
        (session, Action::Launch)
    }

    /// The child's process id, once it has been launched.
    pub fn pid(&self) -> (r: i32)
        ensures
            r == self@.pid,
    {
        self.pid
    }

    /// The phase the session is in.
    pub fn phase(&self) -> (r: Phase)
        ensures
            r == self@.phase,
    {
        self.phase
    }

    /// Ends the session after `err`: a child that has not been reaped is
    /// waited for first (the error is reported once it has exited);
    /// otherwise the error is reported at once.
    fn abort(&mut self, err: SessionError) -> (a: Action)
        requires
            old(self).wf(),
        ensures
            final(self).wf(),
            aborted(old(self)@, err, final(self)@, a),
    {
        self.reading = false;
        let p = self.phase;
        if p == Phase::AwaitingReady || p == Phase::Opening || p == Phase::Starting || p
            == Phase::Releasing || p == Phase::Running || p == Phase::Reaping {
            if p != Phase::Reaping {
                self.error = err;
            }
            self.phase = Phase::Reaping;
            Action::Wait(self.pid)
        } else {
            self.phase = Phase::Failed;
            Action::Fail(err)
        }
    }

    /// After readiness, or after a counter was opened: open the next
    /// counter, or, once all are open, take the first start snapshot.
    fn open_next(&mut self) -> (a: Action)
        requires
            0 < old(self).kinds@.len(),
            old(self).phase == Phase::AwaitingReady || old(self).phase == Phase::Opening,
            old(self).events@.len() <= old(self).kinds@.len(),
            forall|i: int|
                0 <= i < old(self).events@.len() ==> (#[trigger] old(self).events@[i]).event
                    == old(self).kinds@[i],
            old(self).starts@.len() == 0,
            old(self).stops@.len() == 0,
            !old(self).reading,
        ensures
            final(self).wf(),
            opened_next(old(self)@, final(self)@, a),
    {
        let k = self.events.len();
        if k < self.kinds.len() {
            self.phase = Phase::Opening;
            Action::Open(Event::open_request(self.kinds[k], Some(self.pid)))
        } else {
            self.phase = Phase::Starting;
            Action::Control(self.events[0].start_counter())
        }
    }

    /// Advances the session by what the last action produced.
    ///
    /// The handshake is kept in order: counters are opened only once the
    /// child has signalled readiness, the release is written only once every
    /// counter has its start snapshot, stop snapshots begin only once the
    /// child has exited, and an error that strikes while the child may still
    /// be held at the barrier is reported only after the child is reaped.
    pub fn step(&mut self, input: Input) -> (a: Action)
        requires
            old(self).wf(),
        ensures
            final(self).wf(),
            step_spec(old(self)@, input, final(self)@, a),
            final(self)@.kinds == old(self)@.kinds,
            a is Open ==> (old(self)@.phase == Phase::AwaitingReady && (input matches Input::Ready(n)
                && n == 1)) || (old(self)@.phase == Phase::Opening && input is Opened),
            a is Release ==> final(self)@.phase == Phase::Releasing && final(self)@.fds.len()
                == final(self)@.kinds.len() && final(self)@.starts.len()
                == final(self)@.kinds.len(),
            final(self)@.phase == Phase::Running && old(self)@.phase != Phase::Running ==> (
            old(self)@.phase == Phase::Releasing && (input matches Input::Released(n, t) && n == 1
                && final(self)@.release_ns == t)),
            final(self)@.phase == Phase::Stopping && old(self)@.phase != Phase::Stopping ==> (
            old(self)@.phase == Phase::Running && (input matches Input::Exited(p, _) && p == old(
            self)@.pid)),
            before_release(old(self)@.phase) ==> !(a is Fail),
            a is Fail ==> final(self)@.phase == Phase::Failed,
            old(self)@.phase == Phase::Starting && old(self)@.reading ==> (input matches Input::ReadCount(n, buf)
                ==> (read_outcome(n, buf@) is Ok ==> final(self)@.starts == old(self)@.starts.push(
                read_outcome(n, buf@)->Ok_0))),
            old(self)@.phase == Phase::Stopping && old(self)@.reading ==> (input matches Input::ReadCount(n, buf)
                ==> (read_outcome(n, buf@) is Ok ==> final(self)@.stops == old(self)@.stops.push(
                read_outcome(n, buf@)->Ok_0))),
            a is Report ==> old(self)@.phase == Phase::Stopping && final(self)@.phase
                == Phase::Reported && report_of(final(self)@, a->Report_0),
    {
        let phase = self.phase;
        match input {
            Input::Launched(pid) => {
                if phase != Phase::Launching {
                    return self.abort(SessionError::Protocol);
                }
                if pid > 0 {
                    self.pid = pid;
                    self.phase = Phase::AwaitingReady;
                    Action::AwaitReady
                } else {
                    self.phase = Phase::Failed;
                    Action::Fail(SessionError::Launch)
                }
            },
            Input::Ready(n) => {
                if phase != Phase::AwaitingReady {
                    return self.abort(SessionError::Protocol);
                }
                if n != 1 {
                    return self.abort(SessionError::Handshake);
                }
                self.open_next()
            },
            Input::Opened(ret) => {
                if phase != Phase::Opening {
                    return self.abort(SessionError::Protocol);
                }
                let kind = self.kinds[self.events.len()];
                match Event::new(kind, ret) {
                    Ok(e) => {
                        let ghost before = self@;
                        self.events.push(e);
                        assert(self@.fds =~= before.fds.push(ret as i32));
                        self.open_next()
                    },
                    Err(e) => self.abort(SessionError::Counter(kind, e)),
                }
            },
            Input::Controlled(ret) => {
                if !(phase == Phase::Starting || phase == Phase::Stopping) || self.reading {
                    return self.abort(SessionError::Protocol);
                }
                let i = if phase == Phase::Starting {
                    self.starts.len()
                } else {
                    self.stops.len()
                };
                match self.events[i].snapshot_read(ret) {
                    Ok(req) => {
                        self.reading = true;
                        Action::Read(req)
                    },
                    Err(e) => {
                        let kind = self.kinds[i];
                        self.abort(SessionError::Counter(kind, e))
                    },
                }
            },
            Input::ReadCount(n, buf) => {
                if !(phase == Phase::Starting || phase == Phase::Stopping) || !self.reading {
                    return self.abort(SessionError::Protocol);
                }
                let i = if phase == Phase::Starting {
                    self.starts.len()
                } else {
                    self.stops.len()
                };
                match self.events[i].snapshot_value(n, buf) {
                    Ok(v) => {
                        self.reading = false;
                        if phase == Phase::Starting {
                            self.starts.push(v);
                            if self.starts.len() < self.kinds.len() {
                                Action::Control(self.events[self.starts.len()].start_counter())
                            } else {
                                self.phase = Phase::Releasing;
                                Action::Release
                            }
                        } else {
                            self.stops.push(v);
                            if self.stops.len() < self.kinds.len() {
                                Action::Control(self.events[self.stops.len()].stop_counter())
                            } else {
                                self.phase = Phase::Reported;
                                Action::Report(self.report())
                            }
                        }
                    },
                    Err(e) => {
                        let kind = self.kinds[i];
                        self.abort(SessionError::Counter(kind, e))
                    },
                }
            },
            Input::Released(n, t) => {
                if phase != Phase::Releasing {
                    return self.abort(SessionError::Protocol);
                }
                if n != 1 {
                    return self.abort(SessionError::Handshake);
                }
                self.release_ns = t;
                self.phase = Phase::Running;
                Action::Wait(self.pid)
            },
            Input::Exited(ret, t) => {
                if phase == Phase::Reaping {
                    self.phase = Phase::Failed;
                    return Action::Fail(self.error);
                }
                if phase != Phase::Running {
                    return self.abort(SessionError::Protocol);
                }
                if ret != self.pid {
                    self.phase = Phase::Failed;
                    return Action::Fail(SessionError::Wait);
                }
                self.elapsed_ns = if t >= self.release_ns {
                    t - self.release_ns
                } else {
                    0
                };
                self.phase = Phase::Stopping;
                Action::Control(self.events[0].stop_counter())
            },
        }
    }

    /// The report of a run whose snapshots are all taken.
    fn report(&self) -> (r: Report)
        requires
            self.starts@.len() == self.kinds@.len(),
            self.stops@.len() == self.kinds@.len(),
        ensures
            r.counters@.len() == self@.kinds.len(),
            forall|i: int|
                0 <= i < r.counters@.len() ==> #[trigger] r.counters@[i] == (Counter {
                    event: self@.kinds[i],
                    start: self@.starts[i],
                    stop: self@.stops[i],
                }),
            r.elapsed_ns == self@.elapsed_ns,
    {
        let mut counters: Vec<Counter> = Vec::new();
        let mut i: usize = 0;
        while i < self.kinds.len()
            invariant
                i <= self.kinds@.len(),
                self.starts@.len() == self.kinds@.len(),
                self.stops@.len() == self.kinds@.len(),
                counters@.len() == i,
                forall|j: int|
                    0 <= j < i ==> #[trigger] counters@[j] == (Counter {
                        event: self.kinds@[j],
                        start: self.starts@[j],
                        stop: self.stops@[j],
                    }),
            decreases self.kinds@.len() - i,
        {
            counters.push(Counter { event: self.kinds[i], start: self.starts[i], stop: self.stops[i] });
            i = i + 1;
        }
        Report { counters, elapsed_ns: self.elapsed_ns }
    }
}

} // verus!
