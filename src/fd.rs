//! One counter descriptor and its control protocol.
//!
//! Each operation is one kernel call. A method of [`FileDesc`] says which
//! call to make (or refuses it before the kernel is involved); the caller
//! makes it and hands the raw result to the matching `*_outcome` function,
//! which turns it into a typed result. No operation is ever retried.
use crate::catalog::EventAttr;
use crate::error::SysErr;
use crate::ioctl::IoctlCommand;
use crate::layout::{attr_bytes, le_u64, u64_from_bytes};
use vstd::prelude::*;

verus! {

/// Byte width of one counter value.
pub const COUNT_WIDTH: usize = 8;

/// "Any CPU" for the `cpu` argument of the open call.
pub const ANY_CPU: i32 = -1;

/// "No group" for the `group_fd` argument of the open call.
pub const NO_GROUP: i32 = -1;

/// The `perf_event_open` call to make: the attribute structure as bytes,
/// the target process (0 for the calling process), the CPU, the group
/// leader and the flags.
#[derive(Debug)]
pub struct OpenRequest {
    pub attr: Vec<u8>,
    pub pid: i32,
    pub cpu: i32,
    pub group_fd: i32,
    pub flags: u64,
}

/// The third argument of an ioctl.
#[derive(Clone, Copy, Debug, PartialEq, Eq, Structural)]
pub enum IoctlArg {
    /// The integer 0.
    Zero,
    /// The integer itself.
    Value(u64),
    /// A pointer to a `u64` holding the value, which the kernel reads.
    InPtr(u64),
    /// A pointer to a `u64` that the kernel fills in.
    OutPtr,
}

/// The ioctl call to make on a descriptor.
#[derive(Clone, Copy, Debug, PartialEq, Eq, Structural)]
pub struct IoctlRequest {
    pub fd: i32,
    pub command: u32,
    pub arg: IoctlArg,
}

/// The `read` call to make: `len` bytes from descriptor `fd`.
#[derive(Clone, Copy, Debug, PartialEq, Eq, Structural)]
pub struct ReadRequest {
    pub fd: i32,
    pub len: usize,
}

/// An open counter descriptor. It cannot be copied or cloned, so one value
/// stands for one descriptor; the code that made the open call closes it.
#[derive(Debug)]
pub struct FileDesc {
    fd: i32,
}

/// The ioctl request `command` with argument `arg` on descriptor `fd`.
pub open spec fn ioctl_req(fd: i32, command: IoctlCommand, arg: IoctlArg) -> IoctlRequest {
    IoctlRequest { fd, command: command.spec_word() as u32, arg }
}

/// The typed result of a control call that returned `ret`: the kernel
/// reports failure with a negative value.
pub open spec fn control_outcome(ret: i32) -> Result<(), SysErr> {
    if ret < 0 {
        Err(SysErr::IoFail)
    } else {
        Ok(())
    }
}

/// The typed result of the id call: a failed call, then a zero id, are
/// errors; any other id is the counter's identifier.
pub open spec fn id_outcome(ret: i32, id: u64) -> Result<u64, SysErr> {
    if ret < 0 {
        Err(SysErr::IoFail)
    } else if id == 0 {
        Err(SysErr::IoId)
    } else {
        Ok(id)
    }
}

/// The typed result of a read of `n` bytes into `buf`: anything but the
/// full width of a count is a failure; otherwise the count, as a signed
/// 64-bit integer.
pub open spec fn read_outcome(n: isize, buf: Seq<u8>) -> Result<i64, SysErr> {
    if n != COUNT_WIDTH as isize {
        Err(SysErr::ReadFail)
    } else {
        Ok(le_u64(buf) as i64)
    }
}

/// The typed result of the open call that returned `ret`.
pub open spec fn open_outcome(ret: i64) -> Result<int, SysErr> {
    if 0 <= ret <= i32::MAX {
        Ok(ret as int)
    } else {
        Err(SysErr::OpenFail)
    }
}

impl View for FileDesc {
    type V = i32;

    closed spec fn view(&self) -> i32 {
        self.fd
    }
}

impl FileDesc {
    /// The open call for a counter with attribute `event` on process `pid`
    /// (`None` for the calling process), CPU `cpu` (-1 for any) and group
    /// leader `group_fd` (-1 for none), without flags.
    pub fn open_request(event: &EventAttr, pid: Option<i32>, cpu: i32, group_fd: i32) -> (r:
        OpenRequest)
        ensures
            r.attr@ == attr_bytes(*event),
            r.pid == match pid {
                Some(p) => p,
                None => 0,
            },
            r.cpu == cpu,
            r.group_fd == group_fd,
            r.flags == 0,
    {
        let pid = match pid {
            Some(p) => p,
            None => 0,
        };
        OpenRequest { attr: event.to_bytes(), pid, cpu, group_fd, flags: 0 }
    }

    /// Takes ownership of the descriptor that the open call returned, or
    /// reports that the call failed.
    pub fn new(ret: i64) -> (r: Result<FileDesc, SysErr>)
        ensures
            r is Ok <==> open_outcome(ret) is Ok,
            r matches Ok(d) ==> d@ == ret,
            r is Err ==> r == Err::<FileDesc, SysErr>(SysErr::OpenFail),
    {
        if 0 <= ret && ret <= i32::MAX as i64 {
            Ok(FileDesc { fd: ret as i32 })
        } else {
            Err(SysErr::OpenFail)
        }
    }

    /// The raw descriptor.
    pub fn raw(&self) -> (r: i32)
        ensures
            r == self@,
    {
        self.fd
    }

    /// Enable the counter.
    pub fn enable(&self) -> (r: IoctlRequest)
        ensures
            r == ioctl_req(self@, IoctlCommand::Enable, IoctlArg::Zero),
    {
        IoctlRequest { fd: self.fd, command: IoctlCommand::Enable.word(), arg: IoctlArg::Zero }
    }

    /// Disable the counter.
    pub fn disable(&self) -> (r: IoctlRequest)
        ensures
            r == ioctl_req(self@, IoctlCommand::Disable, IoctlArg::Zero),
    {
        IoctlRequest { fd: self.fd, command: IoctlCommand::Disable.word(), arg: IoctlArg::Zero }
    }

    /// Reset the counter to zero.
    pub fn reset(&self) -> (r: IoctlRequest)
        ensures
            r == ioctl_req(self@, IoctlCommand::Reset, IoctlArg::Zero),
    {
        IoctlRequest { fd: self.fd, command: IoctlCommand::Reset.word(), arg: IoctlArg::Zero }
    }

    /// Allow `count` more overflows before the counter disables itself.
    /// A count of zero is undefined for the kernel and is refused here,
    /// before any call.
    pub fn refresh(&self, count: usize) -> (r: Result<IoctlRequest, SysErr>)
        ensures
            count == 0 ==> r == Err::<IoctlRequest, SysErr>(SysErr::IoArg),
            count != 0 ==> r == Ok::<IoctlRequest, SysErr>(
                ioctl_req(self@, IoctlCommand::Refresh, IoctlArg::Value(count as u64)),
            ),
    {
        if count == 0 {
            return Err(SysErr::IoArg);
        }
        Ok(
            IoctlRequest {
                fd: self.fd,
                command: IoctlCommand::Refresh.word(),
                arg: IoctlArg::Value(count as u64),
            },
        )
    }

    /// Set the overflow period to `interval`, passed by pointer.
    pub fn overflow_period(&self, interval: u64) -> (r: IoctlRequest)
        ensures
            r == ioctl_req(self@, IoctlCommand::Period, IoctlArg::InPtr(interval)),
    {
        IoctlRequest {
            fd: self.fd,
            command: IoctlCommand::Period.word(),
            arg: IoctlArg::InPtr(interval),
        }
    }

    /// Ask for the counter's kernel-assigned identifier, which the kernel
    /// writes through the argument pointer.
    pub fn id(&self) -> (r: IoctlRequest)
        ensures
            r == ioctl_req(self@, IoctlCommand::Id, IoctlArg::OutPtr),
    {
        IoctlRequest { fd: self.fd, command: IoctlCommand::Id.word(), arg: IoctlArg::OutPtr }
    }

    /// Read the counter's accumulated value: one count's width of bytes.
    pub fn read(&self) -> (r: ReadRequest)
        ensures
            r == (ReadRequest { fd: self@, len: COUNT_WIDTH }),
    {
        ReadRequest { fd: self.fd, len: COUNT_WIDTH }
    }

    /// Redirecting output to another descriptor is a reserved extension
    /// point.
    pub fn set_output(&self) -> (r: Result<IoctlRequest, SysErr>)
        ensures
            r == Err::<IoctlRequest, SysErr>(SysErr::Unsupported),
    {
        Err(SysErr::Unsupported)
    }

    /// Ignoring output is a reserved extension point.
    pub fn ignore_output(&self) -> (r: Result<IoctlRequest, SysErr>)
        ensures
            r == Err::<IoctlRequest, SysErr>(SysErr::Unsupported),
    {
        Err(SysErr::Unsupported)
    }

    /// Pausing the ring buffer is a reserved extension point.
    pub fn pause_output(&self) -> (r: Result<IoctlRequest, SysErr>)
        ensures
            r == Err::<IoctlRequest, SysErr>(SysErr::Unsupported),
    {
        Err(SysErr::Unsupported)
    }

    /// Resuming the ring buffer is a reserved extension point.
    pub fn resume_output(&self) -> (r: Result<IoctlRequest, SysErr>)
        ensures
            r == Err::<IoctlRequest, SysErr>(SysErr::Unsupported),
    {
        Err(SysErr::Unsupported)
    }

    /// Changing the attributes of an open counter is a reserved extension
    /// point.
    pub fn modify_attributes(&self, _event: &EventAttr) -> (r: Result<IoctlRequest, SysErr>)
        ensures
            r == Err::<IoctlRequest, SysErr>(SysErr::Unsupported),
    {
        Err(SysErr::Unsupported)
    }
}

/// Maps the return value of a control call to its typed result.
pub fn control_result(ret: i32) -> (r: Result<(), SysErr>)
    ensures
        r == control_outcome(ret),
{
    if ret < 0 {
        Err(SysErr::IoFail)
    } else {
        Ok(())
    }
}

/// Maps the return value of the id call, and the id the kernel wrote, to
/// the typed result. Zero is never handed out as an id.
pub fn id_result(ret: i32, id: u64) -> (r: Result<u64, SysErr>)
    ensures
        r == id_outcome(ret, id),
{
    if ret < 0 {
        Err(SysErr::IoFail)
    } else if id == 0 {
        Err(SysErr::IoId)
    } else {
        Ok(id)
    }
}

/// Maps the byte count returned by `read`, and the bytes read, to the
/// typed count.
pub fn read_result(n: isize, buf: [u8; 8]) -> (r: Result<i64, SysErr>)
    ensures
        r == read_outcome(n, buf@),
{
    if n != COUNT_WIDTH as isize {
        Err(SysErr::ReadFail)
    } else {
        Ok(u64_from_bytes(buf) as i64)
    }
}

/// An identifier is never zero when the id call succeeds: a zero from the
/// kernel always becomes the identifier error.
pub proof fn lemma_id_never_zero(ret: i32, id: u64)
    ensures
        id_outcome(ret, id) matches Ok(v) ==> v != 0,
        ret >= 0 && id == 0 ==> id_outcome(ret, id) == Err::<u64, SysErr>(SysErr::IoId),
{
}

} // verus!
