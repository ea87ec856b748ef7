//! The tool's command surface. Only `stat` and `test` do any work; the
//! others are named so that front ends can list them.
use vstd::prelude::*;

verus! {

/// A command of the tool.
#[derive(Clone, Copy, Debug, PartialEq, Eq, Structural)]
pub enum PerfEvent {
    Stat,
    Record,
    Report,
    Annotate,
    Top,
    Bench,
    Test,
}

impl PerfEvent {
    /// The command's name on the command line.
    pub open spec fn spec_name(self) -> Seq<char> {
        match self {
            PerfEvent::Stat => "stat"@,
            PerfEvent::Test => "test"@,
            PerfEvent::Report => "report"@,
            PerfEvent::Record => "record"@,
            PerfEvent::Annotate => "annotate"@,
            PerfEvent::Bench => "bench"@,
            PerfEvent::Top => "top"@,
        }
    }

    /// The command's name on the command line.
    pub fn as_str(&self) -> (r: &'static str)
        ensures
            r@ == self.spec_name(),
    {
        match self {
            PerfEvent::Stat => "stat",
            PerfEvent::Test => "test",
            PerfEvent::Report => "report",
            PerfEvent::Record => "record",
            PerfEvent::Annotate => "annotate",
            PerfEvent::Bench => "bench",
            PerfEvent::Top => "top",
        }
    }

    /// Whether the command does any work.
    pub fn is_implemented(&self) -> (r: bool)
        ensures
            r <==> (*self == PerfEvent::Stat || *self == PerfEvent::Test),
    {
        match self {
            PerfEvent::Stat | PerfEvent::Test => true,
            _ => false,
        }
    }

    /// Every command, in alphabetical order.
    pub fn all() -> (r: Vec<PerfEvent>)
        ensures
            r@ == seq![
                PerfEvent::Annotate,
                PerfEvent::Bench,
                PerfEvent::Record,
                PerfEvent::Report,
                PerfEvent::Stat,
                PerfEvent::Test,
                PerfEvent::Top,
            ],
    {
        let r = vec![
            PerfEvent::Annotate,
            PerfEvent::Bench,
            PerfEvent::Record,
            PerfEvent::Report,
            PerfEvent::Stat,
            PerfEvent::Test,
            PerfEvent::Top,
        ];
        assert(r@ =~= seq![
            PerfEvent::Annotate,
            PerfEvent::Bench,
            PerfEvent::Record,
            PerfEvent::Report,
            PerfEvent::Stat,
            PerfEvent::Test,
            PerfEvent::Top,
        ]);
        r
    }
}

impl Default for PerfEvent {
    fn default() -> (r: PerfEvent)
        ensures
            r == PerfEvent::Stat,
    {
        PerfEvent::Stat
    }
}

} // verus!
