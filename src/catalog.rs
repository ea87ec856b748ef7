//! The closed catalog of countable events and the kernel attribute that
//! requests each of them.
use crate::error::{EventErr, ParseError};
use vstd::prelude::*;

verus! {

/// `PERF_TYPE_HARDWARE`: generalized hardware events.
pub const PERF_TYPE_HARDWARE: u32 = 0;

/// `PERF_TYPE_SOFTWARE`: events provided by the kernel.
pub const PERF_TYPE_SOFTWARE: u32 = 1;

/// `PERF_TYPE_HW_CACHE`: hardware cache events.
pub const PERF_TYPE_HW_CACHE: u32 = 3;

/// `PERF_COUNT_HW_CPU_CYCLES`.
pub const HW_CPU_CYCLES: u64 = 0;

/// `PERF_COUNT_HW_INSTRUCTIONS`.
pub const HW_INSTRUCTIONS: u64 = 1;

/// `PERF_COUNT_SW_TASK_CLOCK`: CPU time of the task, in nanoseconds.
pub const SW_TASK_CLOCK: u64 = 1;

/// `PERF_COUNT_SW_CONTEXT_SWITCHES`.
pub const SW_CONTEXT_SWITCHES: u64 = 3;

/// `PERF_COUNT_HW_CACHE_L1D`: level-1 data cache.
pub const CACHE_L1D: u8 = 0;

/// `PERF_COUNT_HW_CACHE_L1I`: level-1 instruction cache.
pub const CACHE_L1I: u8 = 1;

/// `PERF_COUNT_HW_CACHE_OP_READ`.
pub const CACHE_OP_READ: u8 = 0;

/// `PERF_COUNT_HW_CACHE_OP_WRITE`.
pub const CACHE_OP_WRITE: u8 = 1;

/// `PERF_COUNT_HW_CACHE_RESULT_ACCESS`.
pub const CACHE_RESULT_ACCESS: u8 = 0;

/// `PERF_COUNT_HW_CACHE_RESULT_MISS`.
pub const CACHE_RESULT_MISS: u8 = 1;

/// The supported events.
#[derive(Clone, Copy, Debug, PartialEq, Eq, Structural)]
pub enum StatEvent {
    Cycles,
    Instructions,
    TaskClock,
    ContextSwitches,
    L1DCacheRead,
    L1DCacheWrite,
    L1DCacheReadMiss,
    L1ICacheReadMiss,
}

/// What the kernel is asked to count: the event's category (`type`), its
/// category-specific code (`config`) and the three flags this tool sets.
#[derive(Clone, Copy, Debug, PartialEq, Eq, Structural)]
pub struct EventAttr {
    pub type_id: u32,
    pub config: u64,
    pub disabled: bool,
    pub exclude_kernel: bool,
    pub exclude_hv: bool,
}

/// The config code of a hardware-cache event:
/// `cache_id | (operation << 8) | (result << 16)`.
pub open spec fn spec_cache_config(id: u8, op: u8, rs: u8) -> u64 {
    (id + op * 0x100 + rs * 0x1_0000) as u64
}

/// Packs a hardware-cache config code from its three byte-sized fields.
pub fn cache_config(id: u8, op: u8, rs: u8) -> (r: u64)
    ensures
        r == spec_cache_config(id, op, rs),
{
    let (i, o, s) = (id as u64, op as u64, rs as u64);
    assert((i | (o << 8u64) | (s << 16u64)) == i + o * 0x100 + s * 0x1_0000) by (bit_vector)
        requires
            i < 0x100,
            o < 0x100,
            s < 0x100,
    ;
    i | (o << 8) | (s << 16)
}

/// The attribute of a counter created disabled, not counting in the
/// hypervisor, and not counting in the kernel unless `kernel` is set.
pub open spec fn attr(type_id: u32, config: u64, kernel: bool) -> EventAttr {
    EventAttr { type_id, config, disabled: true, exclude_kernel: !kernel, exclude_hv: true }
}

/// The kernel attribute that requests each event.
pub open spec fn event_attr(kind: StatEvent) -> EventAttr {
    match kind {
        StatEvent::Cycles => attr(PERF_TYPE_HARDWARE, HW_CPU_CYCLES, false),
        StatEvent::Instructions => attr(PERF_TYPE_HARDWARE, HW_INSTRUCTIONS, false),
        StatEvent::TaskClock => attr(PERF_TYPE_SOFTWARE, SW_TASK_CLOCK, false),
        StatEvent::ContextSwitches => attr(PERF_TYPE_SOFTWARE, SW_CONTEXT_SWITCHES, true),
        StatEvent::L1DCacheRead => attr(
            PERF_TYPE_HW_CACHE,
            spec_cache_config(CACHE_L1D, CACHE_OP_READ, CACHE_RESULT_ACCESS),
            false,
        ),
        StatEvent::L1DCacheWrite => attr(
            PERF_TYPE_HW_CACHE,
            spec_cache_config(CACHE_L1D, CACHE_OP_WRITE, CACHE_RESULT_ACCESS),
            false,
        ),
        StatEvent::L1DCacheReadMiss => attr(
            PERF_TYPE_HW_CACHE,
            spec_cache_config(CACHE_L1D, CACHE_OP_READ, CACHE_RESULT_MISS),
            false,
        ),
        StatEvent::L1ICacheReadMiss => attr(
            PERF_TYPE_HW_CACHE,
            spec_cache_config(CACHE_L1I, CACHE_OP_READ, CACHE_RESULT_MISS),
            false,
        ),
    }
}

/// Builds the kernel attribute for `event`. Every kind of the catalog has
/// one, so this always succeeds, and the same kind always gives the same
/// attribute.
pub fn event_open(event: &StatEvent) -> (r: Result<EventAttr, EventErr>)
    ensures
        r == Ok::<EventAttr, EventErr>(event_attr(*event)),
{
    let (type_id, config, kernel) = match event {
        StatEvent::Cycles => (PERF_TYPE_HARDWARE, HW_CPU_CYCLES, false),
        StatEvent::Instructions => (PERF_TYPE_HARDWARE, HW_INSTRUCTIONS, false),
        StatEvent::TaskClock => (PERF_TYPE_SOFTWARE, SW_TASK_CLOCK, false),
        StatEvent::ContextSwitches => (PERF_TYPE_SOFTWARE, SW_CONTEXT_SWITCHES, true),
        StatEvent::L1DCacheRead => (
            PERF_TYPE_HW_CACHE,
            cache_config(CACHE_L1D, CACHE_OP_READ, CACHE_RESULT_ACCESS),
            false,
        ),
        StatEvent::L1DCacheWrite => (
            PERF_TYPE_HW_CACHE,
            cache_config(CACHE_L1D, CACHE_OP_WRITE, CACHE_RESULT_ACCESS),
            false,
        ),
        StatEvent::L1DCacheReadMiss => (
            PERF_TYPE_HW_CACHE,
            cache_config(CACHE_L1D, CACHE_OP_READ, CACHE_RESULT_MISS),
            false,
        ),
        StatEvent::L1ICacheReadMiss => (
            PERF_TYPE_HW_CACHE,
            cache_config(CACHE_L1I, CACHE_OP_READ, CACHE_RESULT_MISS),
            false,
        ),
    };
    Ok(EventAttr { type_id, config, disabled: true, exclude_kernel: !kernel, exclude_hv: true })
}

/// Every event's counter is created disabled and excludes the hypervisor;
/// all but context switches exclude the kernel as well.
pub proof fn lemma_catalog_flags(kind: StatEvent)
    ensures
        event_attr(kind).disabled,
        event_attr(kind).exclude_hv,
        event_attr(kind).exclude_kernel <==> kind != StatEvent::ContextSwitches,
{
}

/// The command-line name of each event.
pub open spec fn event_name(kind: StatEvent) -> Seq<char> {
    match kind {
        StatEvent::Cycles => "cycles"@,
        StatEvent::Instructions => "instructions"@,
        StatEvent::TaskClock => "task-clock"@,
        StatEvent::ContextSwitches => "context-switches"@,
        StatEvent::L1DCacheRead => "L1D-cache-reads"@,
        StatEvent::L1DCacheWrite => "L1D-cache-writes"@,
        StatEvent::L1DCacheReadMiss => "L1D-cache-read-misses"@,
        StatEvent::L1ICacheReadMiss => "L1I-cache-read-misses"@,
    }
}

/// The words a report uses for each event.
pub open spec fn event_label(kind: StatEvent) -> Seq<char> {
    match kind {
        StatEvent::TaskClock => "task clock"@,
        StatEvent::ContextSwitches => "context switches"@,
        _ => event_name(kind),
    }
}

/// Every kind of the catalog, in catalog order.
pub open spec fn catalog() -> Seq<StatEvent> {
    seq![
        StatEvent::Cycles,
        StatEvent::Instructions,
        StatEvent::TaskClock,
        StatEvent::ContextSwitches,
        StatEvent::L1DCacheRead,
        StatEvent::L1DCacheWrite,
        StatEvent::L1DCacheReadMiss,
        StatEvent::L1ICacheReadMiss,
    ]
}

/// The catalog lists every kind.
pub proof fn lemma_catalog_complete(k: StatEvent)
    ensures
        catalog().contains(k),
{
    let i: int = match k {
        StatEvent::Cycles => 0,
        StatEvent::Instructions => 1,
        StatEvent::TaskClock => 2,
        StatEvent::ContextSwitches => 3,
        StatEvent::L1DCacheRead => 4,
        StatEvent::L1DCacheWrite => 5,
        StatEvent::L1DCacheReadMiss => 6,
        StatEvent::L1ICacheReadMiss => 7,
    };
    assert(catalog()[i] == k);
}

/// Every kind of the catalog, in catalog order.
pub fn all_events() -> (r: Vec<StatEvent>)
    ensures
        r@ == catalog(),
        forall|k: StatEvent| #[trigger] r@.contains(k),
{
    let r = vec![
        StatEvent::Cycles,
        StatEvent::Instructions,
        StatEvent::TaskClock,
        StatEvent::ContextSwitches,
        StatEvent::L1DCacheRead,
        StatEvent::L1DCacheWrite,
        StatEvent::L1DCacheReadMiss,
        StatEvent::L1ICacheReadMiss,
    ];
    assert(r@ =~= catalog());
    assert forall|k: StatEvent| #[trigger] r@.contains(k) by {
        lemma_catalog_complete(k);
    }
    r
}

impl StatEvent {
    /// The command-line name of the event.
    pub fn name(&self) -> (r: &'static str)
        ensures
            r@ == event_name(*self),
    {
        match self {
            StatEvent::Cycles => "cycles",
            StatEvent::Instructions => "instructions",
            StatEvent::TaskClock => "task-clock",
            StatEvent::ContextSwitches => "context-switches",
            StatEvent::L1DCacheRead => "L1D-cache-reads",
            StatEvent::L1DCacheWrite => "L1D-cache-writes",
            StatEvent::L1DCacheReadMiss => "L1D-cache-read-misses",
            StatEvent::L1ICacheReadMiss => "L1I-cache-read-misses",
        }
    }

    /// The words a report uses for the event.
    pub fn label(&self) -> (r: &'static str)
        ensures
            r@ == event_label(*self),
    {
        match self {
            StatEvent::Cycles => "cycles",
            StatEvent::Instructions => "instructions",
            StatEvent::TaskClock => "task clock",
            StatEvent::ContextSwitches => "context switches",
            StatEvent::L1DCacheRead => "L1D-cache-reads",
            StatEvent::L1DCacheWrite => "L1D-cache-writes",
            StatEvent::L1DCacheReadMiss => "L1D-cache-read-misses",
            StatEvent::L1ICacheReadMiss => "L1I-cache-read-misses",
        }
    }
}

/// Whether `a` and `b` hold the same text.
fn same_text(a: &String, b: &str) -> (r: bool)
    ensures
        r == (a@ == b@),
{
    let b = b.to_owned();
    *a == b
}

/// The event whose command-line name is `s`.
pub fn parse_event(s: &str) -> (r: Result<StatEvent, ParseError>)
    ensures
        r matches Ok(k) ==> event_name(k) == s@,
        r is Err ==> r == Err::<StatEvent, ParseError>(ParseError::InvalidEvent) && forall|
            k: StatEvent,
        | event_name(k) != s@,
{
    let text = s.to_owned();
    let all = all_events();
    let mut i: usize = 0;
    while i < all.len()
        invariant
            i <= all@.len(),
            all@ == catalog(),
            text@ == s@,
            forall|j: int| 0 <= j < i ==> event_name(#[trigger] all@[j]) != s@,
        decreases all@.len() - i,
    {
        if same_text(&text, all[i].name()) {
            return Ok(all[i]);
        }
        i = i + 1;
    }
    assert forall|k: StatEvent| event_name(k) != s@ by {
        lemma_catalog_complete(k);
    }
    Err(ParseError::InvalidEvent)
}

impl core::str::FromStr for StatEvent {
    type Err = ParseError;

    fn from_str(s: &str) -> Result<StatEvent, ParseError> {
        parse_event(s)
    }
}

} // verus!
