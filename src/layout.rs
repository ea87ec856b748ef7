//! The binary form of the kernel's `struct perf_event_attr` and of a
//! counter value, in the little-endian byte order of the hosts this tool
//! runs on (x86-64 and 64-bit Arm).
use crate::catalog::EventAttr;
use vstd::prelude::*;

verus! {

/// Size of the attribute structure handed to the kernel
/// (`PERF_ATTR_SIZE_VER7`). Fields that this tool does not set are zero,
/// which every kernel accepts.
pub const PERF_ATTR_SIZE: u32 = 128;

/// Byte offset of the `config` field.
pub const CONFIG_OFFSET: usize = 8;

/// Byte offset of the 64-bit word of one-bit flags.
pub const FLAGS_OFFSET: usize = 40;

/// Bit of the flags word: the counter starts disabled.
pub const FLAG_DISABLED: u64 = 1;

/// Bit of the flags word: events in kernel mode are not counted.
pub const FLAG_EXCLUDE_KERNEL: u64 = 0x20;

/// Bit of the flags word: events in the hypervisor are not counted.
pub const FLAG_EXCLUDE_HV: u64 = 0x40;

/// Byte `i` (least significant first) of `x`.
pub open spec fn byte_of(x: u64, i: int) -> u8 {
    ((x >> ((8 * i) as u64)) & 0xff) as u8
}

/// The flags word of an attribute.
pub open spec fn attr_flags(a: EventAttr) -> u64 {
    ((if a.disabled { FLAG_DISABLED } else { 0 }) + (if a.exclude_kernel {
        FLAG_EXCLUDE_KERNEL
    } else {
        0
    }) + (if a.exclude_hv { FLAG_EXCLUDE_HV } else { 0 })) as u64
}

/// The attribute structure as bytes: `type` (4 bytes) at 0, `size`
/// (4 bytes) at 4, `config` (8 bytes) at 8, the flags word (8 bytes) at 40,
/// zero everywhere else.
pub open spec fn attr_bytes(a: EventAttr) -> Seq<u8> {
    Seq::new(
        PERF_ATTR_SIZE as nat,
        |i: int|
            if i < 4 {
                byte_of(a.type_id as u64, i)
            } else if i < 8 {
                byte_of(PERF_ATTR_SIZE as u64, i - 4)
            } else if i < 16 {
                byte_of(a.config, i - 8)
            } else if 40 <= i < 48 {
                byte_of(attr_flags(a), i - 40)
            } else {
                0
            },
    )
}

/// Appends the `n` low bytes of `x`, least significant first.
fn push_le(out: &mut Vec<u8>, x: u64, n: usize)
    requires
        n <= 8,
    ensures
        final(out)@ == old(out)@ + Seq::new(n as nat, |i: int| byte_of(x, i)),
{
    let ghost start = out@;
    let mut i: usize = 0;
    while i < n
        invariant
            i <= n <= 8,
            out@ == start + Seq::new(i as nat, |j: int| byte_of(x, j)),
        decreases n - i,
    {
        let b = ((x >> (8 * i as u64)) & 0xff) as u8;
        out.push(b);
        i = i + 1;
        assert(out@ =~= start + Seq::new(i as nat, |j: int| byte_of(x, j)));
    }
}

/// Appends `n` zero bytes.
fn push_zeros(out: &mut Vec<u8>, n: usize)
    ensures
        final(out)@ == old(out)@ + Seq::new(n as nat, |i: int| 0u8),
{
    let ghost start = out@;
    let mut i: usize = 0;
    while i < n
        invariant
            i <= n,
            out@ == start + Seq::new(i as nat, |j: int| 0u8),
        decreases n - i,
    {
        out.push(0);
        i = i + 1;
        assert(out@ =~= start + Seq::new(i as nat, |j: int| 0u8));
    }
}

impl EventAttr {
    /// The flags word of this attribute.
    pub fn flags(&self) -> (r: u64)
        ensures
            r == attr_flags(*self),
    {
        let mut f: u64 = 0;
        if self.disabled {
            f = f + FLAG_DISABLED;
        }
        if self.exclude_kernel {
            f = f + FLAG_EXCLUDE_KERNEL;
        }
        if self.exclude_hv {
            f = f + FLAG_EXCLUDE_HV;
        }
        f
    }

    /// Lays the attribute out as the kernel's `struct perf_event_attr`.
    pub fn to_bytes(&self) -> (r: Vec<u8>)
        ensures
            r@ == attr_bytes(*self),
    {
        let mut out: Vec<u8> = Vec::new();
        push_le(&mut out, self.type_id as u64, 4);
        push_le(&mut out, PERF_ATTR_SIZE as u64, 4);
        push_le(&mut out, self.config, 8);
        push_zeros(&mut out, FLAGS_OFFSET - 16);
        let flags = self.flags();
        push_le(&mut out, flags, 8);
        push_zeros(&mut out, PERF_ATTR_SIZE as usize - 48);
        assert(out@ =~= attr_bytes(*self));
        out
    }
}

/// The value of eight bytes read least significant first.
pub open spec fn le_u64(b: Seq<u8>) -> u64 {
    (b[0] + b[1] * 0x100 + b[2] * 0x1_0000 + b[3] * 0x100_0000 + b[4] * 0x1_0000_0000 + b[5]
        * 0x100_0000_0000 + b[6] * 0x1_0000_0000_0000 + b[7] * 0x100_0000_0000_0000) as u64
}

/// Decodes a counter value from the eight bytes that `read` delivered.
pub fn u64_from_bytes(b: [u8; 8]) -> (r: u64)
    ensures
        r == le_u64(b@),
{
    let (b0, b1, b2, b3) = (b[0] as u64, b[1] as u64, b[2] as u64, b[3] as u64);
    let (b4, b5, b6, b7) = (b[4] as u64, b[5] as u64, b[6] as u64, b[7] as u64);
    let r = b0 | (b1 << 8) | (b2 << 16) | (b3 << 24) | (b4 << 32) | (b5 << 40) | (b6 << 48) | (b7
        << 56);
    assert(r == b0 + b1 * 0x100 + b2 * 0x1_0000 + b3 * 0x100_0000 + b4 * 0x1_0000_0000 + b5
        * 0x100_0000_0000 + b6 * 0x1_0000_0000_0000 + b7 * 0x100_0000_0000_0000) by (bit_vector)
        requires
            r == b0 | (b1 << 8) | (b2 << 16) | (b3 << 24) | (b4 << 32) | (b5 << 40) | (b6 << 48)
                | (b7 << 56),
            b0 < 0x100,
            b1 < 0x100,
            b2 < 0x100,
            b3 < 0x100,
            b4 < 0x100,
            b5 < 0x100,
            b6 < 0x100,
            b7 < 0x100,
    ;
    r
}

} // verus!
