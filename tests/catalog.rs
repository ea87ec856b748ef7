use ruperf::catalog::{all_events, cache_config, event_open, parse_event, EventAttr, StatEvent};
use ruperf::command::PerfEvent;
use ruperf::error::ParseError;
use ruperf::layout::{u64_from_bytes, PERF_ATTR_SIZE};

fn expected(type_id: u32, config: u64, exclude_kernel: bool) -> EventAttr {
    EventAttr { type_id, config, disabled: true, exclude_kernel, exclude_hv: true }
}

#[test]
fn cache_config_packs_id_operation_result() {
    assert_eq!(cache_config(0, 0, 0), 0);
    assert_eq!(cache_config(0, 1, 0), 0x100);
    assert_eq!(cache_config(1, 0, 1), 0x1_0001);
    assert_eq!(cache_config(0xff, 0xff, 0xff), 0xff_ffff);
}

#[test]
fn event_open_maps_every_kind() {
    assert_eq!(event_open(&StatEvent::Cycles), Ok(expected(0, 0, true)));
    assert_eq!(event_open(&StatEvent::Instructions), Ok(expected(0, 1, true)));
    assert_eq!(event_open(&StatEvent::TaskClock), Ok(expected(1, 1, true)));
    assert_eq!(event_open(&StatEvent::ContextSwitches), Ok(expected(1, 3, false)));
    assert_eq!(event_open(&StatEvent::L1DCacheRead), Ok(expected(3, 0, true)));
    assert_eq!(event_open(&StatEvent::L1DCacheWrite), Ok(expected(3, 0x100, true)));
    assert_eq!(event_open(&StatEvent::L1DCacheReadMiss), Ok(expected(3, 0x1_0000, true)));
    assert_eq!(event_open(&StatEvent::L1ICacheReadMiss), Ok(expected(3, 0x1_0001, true)));
}

#[test]
fn event_open_is_deterministic() {
    for kind in all_events() {
        assert_eq!(event_open(&kind), event_open(&kind));
        assert!(event_open(&kind).is_ok());
    }
    assert_eq!(all_events().len(), 8);
}

#[test]
fn attribute_bytes_follow_the_kernel_layout() {
    let attr = event_open(&StatEvent::L1ICacheReadMiss).unwrap();
    let bytes = attr.to_bytes();
    assert_eq!(bytes.len(), PERF_ATTR_SIZE as usize);
    assert_eq!(&bytes[0..4], &[3, 0, 0, 0]);
    assert_eq!(&bytes[4..8], &[128, 0, 0, 0]);
    assert_eq!(&bytes[8..16], &[1, 0, 1, 0, 0, 0, 0, 0]);
    assert_eq!(&bytes[40..48], &[0x61, 0, 0, 0, 0, 0, 0, 0]);
    assert!(bytes[16..40].iter().all(|b| *b == 0));
    assert!(bytes[48..].iter().all(|b| *b == 0));
    let cs = event_open(&StatEvent::ContextSwitches).unwrap().to_bytes();
    assert_eq!(cs[40], 0x41);
    assert_eq!(cs[0], 1);
    assert_eq!(cs[8], 3);
}

#[test]
fn counts_decode_least_significant_first() {
    assert_eq!(u64_from_bytes([1, 0, 0, 0, 0, 0, 0, 0]), 1);
    assert_eq!(u64_from_bytes([0, 1, 0, 0, 0, 0, 0, 0]), 256);
    assert_eq!(u64_from_bytes(0x0102_0304_0506_0708u64.to_le_bytes()), 0x0102_0304_0506_0708);
    assert_eq!(u64_from_bytes([0xff; 8]), u64::MAX);
}

#[test]
fn event_names_parse_back() {
    for kind in all_events() {
        assert_eq!(parse_event(kind.name()), Ok(kind));
        let parsed: StatEvent = kind.name().parse().unwrap();
        assert_eq!(parsed, kind);
    }
    assert_eq!(parse_event("task-clock"), Ok(StatEvent::TaskClock));
    assert_eq!(parse_event("L1I-cache-read-misses"), Ok(StatEvent::L1ICacheReadMiss));
    assert_eq!(parse_event("branches"), Err(ParseError::InvalidEvent));
    assert_eq!(parse_event(""), Err(ParseError::InvalidEvent));
    assert_eq!(StatEvent::TaskClock.label(), "task clock");
    assert_eq!(StatEvent::ContextSwitches.label(), "context switches");
}

#[test]
fn command_names() {
    assert_eq!(PerfEvent::Stat.as_str(), "stat");
    assert_eq!(PerfEvent::Annotate.as_str(), "annotate");
    assert_eq!(PerfEvent::default(), PerfEvent::Stat);
    assert_eq!(PerfEvent::all().len(), 7);
    assert_eq!(PerfEvent::all()[0], PerfEvent::Annotate);
    assert!(PerfEvent::Test.is_implemented());
    assert!(!PerfEvent::Record.is_implemented());
}
