//! An [`Event`] binds one kind of the catalog to one open counter and
//! takes snapshots of it: enable-then-read to start, disable-then-read to
//! stop.
use crate::catalog::{event_attr, event_open, StatEvent};
use crate::error::SysErr;
use crate::fd::{
    control_outcome, control_result, ioctl_req, read_outcome, read_result, FileDesc, IoctlArg,
    IoctlRequest, OpenRequest, ReadRequest, ANY_CPU, COUNT_WIDTH, NO_GROUP,
};
use crate::ioctl::IoctlCommand;
use crate::layout::{attr_bytes, le_u64};
use vstd::prelude::*;

verus! {

/// One counter of one event kind.
#[derive(Debug)]
pub struct Event {
    pub fd: FileDesc,
    pub event: StatEvent,
}

/// The open call that creates the counter for `kind` on process `pid`
/// (`None` for the calling process): on any CPU, outside any group.
pub open spec fn spec_open_request(kind: StatEvent, pid: Option<i32>, r: OpenRequest) -> bool {
    &&& r.attr@ == attr_bytes(event_attr(kind))
    &&& r.pid == match pid {
        Some(p) => p,
        None => 0,
    }
    &&& r.cpu == ANY_CPU
    &&& r.group_fd == NO_GROUP
    &&& r.flags == 0
}

/// The value of a snapshot whose control call returned `ret` and whose
/// read, made only if that call succeeded, returned `n` bytes `buf`.
pub open spec fn snapshot_outcome(ret: i32, n: isize, buf: Seq<u8>) -> Result<i64, SysErr> {
    match control_outcome(ret) {
        Err(e) => Err(e),
        Ok(_) => read_outcome(n, buf),
    }
}

impl Event {
    /// The open call for a counter of kind `event` on process `pid`.
    pub fn open_request(event: StatEvent, pid: Option<i32>) -> (r: OpenRequest)
        ensures
            spec_open_request(event, pid, r),
    {
        let attr = event_open(&event).unwrap();
        FileDesc::open_request(&attr, pid, ANY_CPU, NO_GROUP)
    }

    /// The event of kind `event` on the descriptor that its open call
    /// returned, or the construction error if that call failed.
    pub fn new(event: StatEvent, opened: i64) -> (r: Result<Event, SysErr>)
        ensures
            r is Ok <==> 0 <= opened <= i32::MAX,
            r matches Ok(e) ==> e.fd@ == opened && e.event == event,
            r is Err ==> r == Err::<Event, SysErr>(SysErr::OpenFail),
    {
        match FileDesc::new(opened) {
            Ok(fd) => Ok(Event { fd, event }),
            Err(e) => Err(e),
        }
    }

    /// Start counting: the first call of the snapshot enables the counter.
    pub fn start_counter(&self) -> (r: IoctlRequest)
        ensures
            r == ioctl_req(self.fd@, IoctlCommand::Enable, IoctlArg::Zero),
    {
        self.fd.enable()
    }

    /// Stop counting: the first call of the snapshot disables the counter,
    /// so that the value read after it is frozen.
    pub fn stop_counter(&self) -> (r: IoctlRequest)
        ensures
            r == ioctl_req(self.fd@, IoctlCommand::Disable, IoctlArg::Zero),
    {
        self.fd.disable()
    }

    /// Reset the counter to zero.
    pub fn reset_counter(&self) -> (r: IoctlRequest)
        ensures
            r == ioctl_req(self.fd@, IoctlCommand::Reset, IoctlArg::Zero),
    {
        self.fd.reset()
    }

    /// The second call of a snapshot: the read, once the control call has
    /// returned `ret`; a failed control call ends the snapshot with its
    /// error.
    pub fn snapshot_read(&self, ret: i32) -> (r: Result<ReadRequest, SysErr>)
        ensures
            control_outcome(ret) is Err ==> r == Err::<ReadRequest, SysErr>(SysErr::IoFail),
            control_outcome(ret) is Ok ==> r == Ok::<ReadRequest, SysErr>(
                ReadRequest { fd: self.fd@, len: COUNT_WIDTH },
            ),
    {
        match control_result(ret) {
            Ok(()) => Ok(self.fd.read()),
            Err(e) => Err(e),
        }
    }

    /// The snapshot's value, from what the read returned.
    pub fn snapshot_value(&self, n: isize, buf: [u8; 8]) -> (r: Result<i64, SysErr>)
        ensures
            r == read_outcome(n, buf@),
    {
        read_result(n, buf)
    }
}

/// Stopping a counter again is legal: [`Event::stop_counter`] depends on
/// the descriptor alone, so a second stop makes the same calls as the
/// first, and when the kernel accepts the disable and hands back the same
/// (unchanged) count, the second stop gives the same value, not an error.
pub proof fn lemma_stop_repeatable(ret1: i32, ret2: i32, n: isize, buf: Seq<u8>)
    requires
        ret1 >= 0,
        ret2 >= 0,
        n == COUNT_WIDTH as isize,
    ensures
        snapshot_outcome(ret1, n, buf) == snapshot_outcome(ret2, n, buf),
        snapshot_outcome(ret2, n, buf) == Ok::<i64, SysErr>(le_u64(buf) as i64),
{
}

} // verus!
