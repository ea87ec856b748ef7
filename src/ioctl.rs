//! Command words of the counter-control ioctls, encoded as the generic
//! Linux `_IOC(dir, type, nr, size)` macro does on x86 and most other
//! architectures: `nr` in bits 0..8, `type` in bits 8..16, `size` in bits
//! 16..30 and the direction in bits 30..32.
use crate::catalog::EventAttr;
use vstd::prelude::*;

verus! {

broadcast use vstd::layout::layout_of_primitives;

/// Shift of the command number within a command word.
pub const IOC_NRSHIFT: u32 = 0;

/// Shift of the type (magic) byte within a command word.
pub const IOC_TYPESHIFT: u32 = 8;

/// Shift of the argument size within a command word.
pub const IOC_SIZESHIFT: u32 = 16;

/// Shift of the direction bits within a command word.
pub const IOC_DIRSHIFT: u32 = 30;

/// The kernel neither reads nor writes the argument.
pub const IOC_NONE: u32 = 0;

/// The kernel reads the argument (user space writes it).
pub const IOC_WRITE: u32 = 1;

/// The kernel writes the argument (user space reads it).
pub const IOC_READ: u32 = 2;

/// The kernel both reads and writes the argument (`IOC_READ_WRITE`).
pub const IOC_READ_WRITE: u32 = 3;

/// The magic byte `'$'` of the performance-counter ioctl family.
pub const IO_TYPE: u32 = 0x24;

/// Command numbers are eight bits wide.
pub const IOC_NR_LIMIT: u32 = 0x100;

/// Argument sizes are fourteen bits wide.
pub const IOC_SIZE_LIMIT: u32 = 0x4000;

/// The command word for direction `dir`, number `nr` and argument size
/// `size`, as a number: each field in its own bit range.
pub open spec fn ioc_word(dir: u32, nr: u32, size: u32) -> int {
    dir * 0x4000_0000 + size * 0x1_0000 + IO_TYPE * 0x100 + nr
}

/// Packs the four fields of a command word.
fn ioc(dir: u32, nr: u32, size: u32) -> (r: u32)
    requires
        dir < 4,
        nr < IOC_NR_LIMIT,
        size < IOC_SIZE_LIMIT,
    ensures
        r == ioc_word(dir, nr, size),
{
    assert(((dir << 30u32) | (0x24u32 << 8u32) | (nr << 0u32) | (size << 16u32)) == dir
        * 0x4000_0000 + size * 0x1_0000 + 0x2400 + nr) by (bit_vector)
        requires
            dir < 4,
            nr < 0x100,
            size < 0x4000,
    ;
    (dir << IOC_DIRSHIFT) | (IO_TYPE << IOC_TYPESHIFT) | (nr << IOC_NRSHIFT) | (size
        << IOC_SIZESHIFT)
}

/// A command without argument: `_IO('$', nr)`.
pub fn iocn(nr: u32) -> (r: u32)
    requires
        nr < IOC_NR_LIMIT,
    ensures
        r == ioc_word(IOC_NONE, nr, 0),
{
    ioc(IOC_NONE, nr, 0)
}

/// A command whose argument the kernel reads: `_IOW('$', nr, T)` with
/// `size_of::<T>() == sz`.
pub fn iocw(nr: u32, sz: usize) -> (r: u32)
    requires
        nr < IOC_NR_LIMIT,
        sz < IOC_SIZE_LIMIT,
    ensures
        r == ioc_word(IOC_WRITE, nr, sz as u32),
{
    ioc(IOC_WRITE, nr, sz as u32)
}

/// A command whose argument the kernel writes: `_IOR('$', nr, T)`.
pub fn iocr(nr: u32, sz: usize) -> (r: u32)
    requires
        nr < IOC_NR_LIMIT,
        sz < IOC_SIZE_LIMIT,
    ensures
        r == ioc_word(IOC_READ, nr, sz as u32),
{
    ioc(IOC_READ, nr, sz as u32)
}

/// A command whose argument the kernel reads and writes: `_IOWR('$', nr, T)`.
pub fn iocwr(nr: u32, sz: usize) -> (r: u32)
    requires
        nr < IOC_NR_LIMIT,
        sz < IOC_SIZE_LIMIT,
    ensures
        r == ioc_word(IOC_READ_WRITE, nr, sz as u32),
{
    ioc(IOC_READ_WRITE, nr, sz as u32)
}

/// The control operations of a counter descriptor.
#[derive(Clone, Copy, Debug, PartialEq, Eq, Structural)]
pub enum IoctlCommand {
    Enable,
    Disable,
    Refresh,
    Reset,
    Period,
    SetOutput,
    SetFilter,
    Id,
    SetBpf,
    PauseOutput,
    QueryBpf,
    ModifyAttributes,
}

/// Size in bytes of a pointer argument.
pub open spec fn pointer_size() -> u32 {
    vstd::layout::size_of::<usize>() as u32
}

impl IoctlCommand {
    /// The fixed command number of the operation.
    pub open spec fn number(self) -> u32 {
        match self {
            IoctlCommand::Enable => 0,
            IoctlCommand::Disable => 1,
            IoctlCommand::Refresh => 2,
            IoctlCommand::Reset => 3,
            IoctlCommand::Period => 4,
            IoctlCommand::SetOutput => 5,
            IoctlCommand::SetFilter => 6,
            IoctlCommand::Id => 7,
            IoctlCommand::SetBpf => 8,
            IoctlCommand::PauseOutput => 9,
            IoctlCommand::QueryBpf => 10,
            IoctlCommand::ModifyAttributes => 11,
        }
    }

    /// Whether the kernel reads the argument, writes it, both or neither.
    pub open spec fn direction(self) -> u32 {
        match self {
            IoctlCommand::Period | IoctlCommand::SetFilter | IoctlCommand::SetBpf
            | IoctlCommand::PauseOutput | IoctlCommand::ModifyAttributes => IOC_WRITE,
            IoctlCommand::Id => IOC_READ,
            IoctlCommand::QueryBpf => IOC_READ_WRITE,
            _ => IOC_NONE,
        }
    }

    /// Byte size of the argument's type: a `u64` period, a pointer for the
    /// filter string, the id and the two query structures, a `u32` for the
    /// BPF descriptor and the pause flag, nothing for the rest.
    pub open spec fn arg_size(self) -> u32 {
        match self {
            IoctlCommand::Period => 8,
            IoctlCommand::SetFilter | IoctlCommand::Id | IoctlCommand::QueryBpf
            | IoctlCommand::ModifyAttributes => pointer_size(),
            IoctlCommand::SetBpf | IoctlCommand::PauseOutput => 4,
            _ => 0,
        }
    }

    /// The command word the kernel expects for this operation.
    pub open spec fn spec_word(self) -> int {
        ioc_word(self.direction(), self.number(), self.arg_size())
    }

    /// Encodes the operation's command word.
    pub fn word(&self) -> (r: u32)
        ensures
            r == self.spec_word(),
    {
        let ptr = core::mem::size_of::<usize>();
        assert(ptr == 4 || ptr == 8) by {
            assert(usize::BITS == 32 || usize::BITS == 64);
        }
        match self {
            IoctlCommand::Enable => iocn(0),
            IoctlCommand::Disable => iocn(1),
            IoctlCommand::Refresh => iocn(2),
            IoctlCommand::Reset => iocn(3),
            IoctlCommand::Period => iocw(4, core::mem::size_of::<u64>()),
            IoctlCommand::SetOutput => iocn(5),
            IoctlCommand::SetFilter => iocw(6, ptr),
            IoctlCommand::Id => iocr(7, ptr),
            IoctlCommand::SetBpf => iocw(8, core::mem::size_of::<u32>()),
            IoctlCommand::PauseOutput => iocw(9, core::mem::size_of::<u32>()),
            IoctlCommand::QueryBpf => iocwr(10, ptr),
            IoctlCommand::ModifyAttributes => iocw(11, ptr),
        }
    }
}

/// Failures of the descriptor-level ioctl operations.
#[derive(Clone, Copy, Debug, PartialEq, Eq, Structural)]
pub enum IoError {
    /// The kernel reported failure.
    SysCallFail,
    /// An argument was rejected before the kernel was called.
    InvalidArg,
    /// The kernel handed back an invalid identifier.
    InvalidId,
    /// The operation is a reserved extension point, not supported here.
    Unsupported,
}

/// Attaching an ftrace filter to descriptor `fd` is a reserved extension
/// point.
pub fn set_filter(fd: i32) -> (r: Result<(), IoError>)
    ensures
        r == Err::<(), IoError>(IoError::Unsupported),
{
    Err(IoError::Unsupported)
}

/// Attaching the BPF program `bpfd` to descriptor `fd` is a reserved
/// extension point.
pub fn set_bpf(fd: i32, bpfd: i32) -> (r: Result<(), IoError>)
    ensures
        r == Err::<(), IoError>(IoError::Unsupported),
{
    Err(IoError::Unsupported)
}

/// Querying the BPF programs attached to descriptor `fd` is a reserved
/// extension point.
pub fn query_bpf(fd: i32) -> (r: Result<(), IoError>)
    ensures
        r == Err::<(), IoError>(IoError::Unsupported),
{
    Err(IoError::Unsupported)
}

/// Changing the attributes of descriptor `fd` is a reserved extension
/// point.
pub fn modify_attributes(fd: i32, event: &EventAttr) -> (r: Result<(), IoError>)
    ensures
        r == Err::<(), IoError>(IoError::Unsupported),
{
    Err(IoError::Unsupported)
}

} // verus!
