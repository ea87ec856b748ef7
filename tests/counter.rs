use ruperf::catalog::{event_open, StatEvent};
use ruperf::error::SysErr;
use ruperf::event::Event;
use ruperf::fd::{
    control_result, id_result, read_result, FileDesc, IoctlArg, IoctlRequest, ReadRequest,
};
use ruperf::ioctl::IoctlCommand;

fn count(v: u64) -> [u8; 8] {
    v.to_le_bytes()
}

#[test]
fn event_open_test() {
    let event = Event::new(StatEvent::Cycles, 5).unwrap();
    assert_eq!(event.start_counter().command, IoctlCommand::Enable.word());
    let read = event.snapshot_read(0).unwrap();
    assert_eq!(read, ReadRequest { fd: 5, len: 8 });
    let cnt = event.snapshot_value(8, count(1_532)).unwrap();
    assert_ne!(cnt, 0);
    assert_ne!(cnt, -1);
    assert_eq!(event.stop_counter().command, IoctlCommand::Disable.word());
    event.snapshot_read(0).unwrap();
    let cnt_2 = event.snapshot_value(8, count(48_211)).unwrap();
    assert_ne!(cnt, cnt_2);
    assert!(cnt < cnt_2);
}

#[test]
fn wrapper_test() {
    let attr = event_open(&StatEvent::Instructions).unwrap();
    let open = FileDesc::open_request(&attr, None, -1, -1);
    assert_eq!(open.pid, 0);
    assert_eq!(open.attr, attr.to_bytes());
    let fd = FileDesc::new(7).unwrap();
    assert_eq!(fd.raw(), 7);
    control_result(0).unwrap();
    assert_eq!(fd.reset().command, IoctlCommand::Reset.word());
    assert_eq!(fd.disable().command, IoctlCommand::Disable.word());
    assert_eq!(fd.enable().command, IoctlCommand::Enable.word());
    assert_eq!(fd.read(), ReadRequest { fd: 7, len: 8 });
    let cnt = read_result(8, count(912)).unwrap();
    assert_eq!(fd.id().arg, IoctlArg::OutPtr);
    id_result(0, 41).unwrap();
    assert_eq!(
        fd.overflow_period(2),
        IoctlRequest { fd: 7, command: IoctlCommand::Period.word(), arg: IoctlArg::InPtr(2) }
    );
    assert_eq!(
        fd.refresh(3),
        Ok(IoctlRequest { fd: 7, command: IoctlCommand::Refresh.word(), arg: IoctlArg::Value(3) })
    );
    assert_ne!(cnt, 0);
    assert!(cnt > 0, "cnt = {}", cnt);
}

#[test]
fn refresh_zero_is_refused() {
    let fd = FileDesc::new(3).unwrap();
    assert_eq!(fd.refresh(0), Err(SysErr::IoArg));
    assert!(fd.refresh(1).is_ok());
}

#[test]
fn id_zero_is_an_error() {
    assert_eq!(id_result(0, 0), Err(SysErr::IoId));
    assert_eq!(id_result(-1, 0), Err(SysErr::IoFail));
    assert_eq!(id_result(-1, 9), Err(SysErr::IoFail));
    assert_eq!(id_result(0, 9), Ok(9));
}

#[test]
fn control_and_read_outcomes() {
    assert_eq!(control_result(-1), Err(SysErr::IoFail));
    assert_eq!(control_result(0), Ok(()));
    assert_eq!(read_result(4, count(10)), Err(SysErr::ReadFail));
    assert_eq!(read_result(-1, count(10)), Err(SysErr::ReadFail));
    assert_eq!(read_result(8, count(10)), Ok(10));
    assert_eq!(read_result(8, [0xff; 8]), Ok(-1));
}

#[test]
fn open_failure_is_a_construction_error() {
    assert_eq!(FileDesc::new(-1).err(), Some(SysErr::OpenFail));
    assert_eq!(Event::new(StatEvent::ContextSwitches, -1).err(), Some(SysErr::OpenFail));
    let e = Event::new(StatEvent::ContextSwitches, 4).unwrap();
    assert_eq!(e.event, StatEvent::ContextSwitches);
    assert_eq!(e.fd.raw(), 4);
}

#[test]
fn open_request_targets_the_process() {
    let req = Event::open_request(StatEvent::TaskClock, Some(4242));
    assert_eq!(req.pid, 4242);
    assert_eq!(req.cpu, -1);
    assert_eq!(req.group_fd, -1);
    assert_eq!(req.flags, 0);
    assert_eq!(req.attr, event_open(&StatEvent::TaskClock).unwrap().to_bytes());
}

#[test]
fn snapshot_stops_on_control_failure() {
    let event = Event::new(StatEvent::Instructions, 6).unwrap();
    assert_eq!(event.snapshot_read(-1), Err(SysErr::IoFail));
}

#[test]
fn second_stop_gives_the_same_value() {
    let event = Event::new(StatEvent::Cycles, 5).unwrap();
    let first = event.stop_counter();
    event.snapshot_read(0).unwrap();
    let v1 = event.snapshot_value(8, count(77_000)).unwrap();
    let second = event.stop_counter();
    assert_eq!(first, second);
    event.snapshot_read(0).unwrap();
    let v2 = event.snapshot_value(8, count(77_000)).unwrap();
    assert_eq!(v1, v2);
}

#[test]
fn reserved_operations_are_unsupported() {
    let fd = FileDesc::new(3).unwrap();
    let attr = event_open(&StatEvent::Cycles).unwrap();
    assert_eq!(fd.set_output(), Err(SysErr::Unsupported));
    assert_eq!(fd.ignore_output(), Err(SysErr::Unsupported));
    assert_eq!(fd.pause_output(), Err(SysErr::Unsupported));
    assert_eq!(fd.resume_output(), Err(SysErr::Unsupported));
    assert_eq!(fd.modify_attributes(&attr), Err(SysErr::Unsupported));
}

#[test]
fn error_messages_tell_remedies_apart() {
    assert_ne!(SysErr::OpenFail.message(), SysErr::IoFail.message());
    assert_eq!(SysErr::IoArg.message(), "invalid argument for counter control");
}
