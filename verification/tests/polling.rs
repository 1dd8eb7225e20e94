use manymouser::drivers::linux_evdev::InputRecord;
use manymouser::drivers::linux_evdev::ManyMouseEventType;
use manymouser::drivers::linux_evdev::MouseClass;
use manymouser::drivers::linux_evdev::PollStep;
use manymouser::drivers::linux_evdev::ReadOutcome;
use manymouser::DriverOptions;
use manymouser::EventContext;

fn context_with(n: usize) -> EventContext {
    let mut ctx = EventContext::new();
    for fd in 0..n {
        ctx.driver.init_mouse(fd as i32, MouseClass::RelativeMouse, None, None);
    }
    ctx
}

fn rel_x(value: i32) -> ReadOutcome {
    ReadOutcome::Record(InputRecord { event_type: 2, code: 0, value })
}

#[test]
fn empty_registry_polls_no_event_immediately() {
    let mut ctx = context_with(0);
    assert_eq!(ctx.poll_start(), PollStep::NoEvent);
}

#[test]
fn silent_devices_are_each_visited_once_then_no_event() {
    // with every device silent, one poll call visits all three devices
    // in order before reporting "no event"
    let mut ctx = context_with(3);
    assert_eq!(ctx.poll_start(), PollStep::Read(0));
    assert_eq!(ctx.poll_step(ReadOutcome::WouldBlock), PollStep::Read(1));
    assert_eq!(ctx.poll_step(ReadOutcome::WouldBlock), PollStep::Read(2));
    assert_eq!(ctx.poll_step(ReadOutcome::WouldBlock), PollStep::NoEvent);
}

#[test]
fn full_cycle_wraps_around_the_starting_cursor() {
    let mut ctx = context_with(3);
    // park the cursor on device 1 by letting device 0 and then 1 produce
    assert_eq!(ctx.poll_start(), PollStep::Read(0));
    assert!(matches!(ctx.poll_step(ReadOutcome::WouldBlock), PollStep::Read(1)));
    assert!(matches!(ctx.poll_step(rel_x(4)), PollStep::Event(_)));
    // a silent cycle now starts at device 1 and wraps: 1, 2, 0
    assert_eq!(ctx.poll_start(), PollStep::Read(1));
    assert_eq!(ctx.poll_step(ReadOutcome::WouldBlock), PollStep::Read(2));
    assert_eq!(ctx.poll_step(ReadOutcome::WouldBlock), PollStep::Read(0));
    assert_eq!(ctx.poll_step(ReadOutcome::WouldBlock), PollStep::NoEvent);
}

#[test]
fn produced_event_ends_the_call_and_keeps_the_cursor() {
    let mut ctx = context_with(2);
    assert_eq!(ctx.poll_start(), PollStep::Read(0));
    match ctx.poll_step(rel_x(9)) {
        PollStep::Event(ev) => {
            assert_eq!(ev.event_type, ManyMouseEventType::Relmotion);
            assert_eq!(ev.device, 0);
            assert_eq!(ev.value, 9);
        }
        other => panic!("expected an event, got {:?}", other),
    }
    // the next call retries the producing device first
    assert_eq!(ctx.poll_start(), PollStep::Read(0));
}

#[test]
fn no_event_record_keeps_reading_the_same_device() {
    // a record with an unrecognized code is "no event": the same poll
    // call keeps reading the same device's queue
    let mut ctx = context_with(2);
    assert_eq!(ctx.poll_start(), PollStep::Read(0));
    let unrecognized = ReadOutcome::Record(InputRecord { event_type: 2, code: 99, value: 1 });
    assert_eq!(ctx.poll_step(unrecognized), PollStep::Read(0));
    // a later decodable record in the same attempt still yields its event
    assert!(matches!(ctx.poll_step(rel_x(2)), PollStep::Event(_)));
}

#[test]
fn event_decodes_against_the_read_device_ranges() {
    let mut ctx = EventContext::new();
    ctx.driver.init_mouse(
        4,
        MouseClass::AbsolutePointer,
        Some(manymouser::drivers::linux_evdev::AxisRanges {
            min_x: 0,
            max_x: 1023,
            min_y: 0,
            max_y: 767,
        }),
        None,
    );
    assert_eq!(ctx.poll_start(), PollStep::Read(0));
    let abs_y = ReadOutcome::Record(InputRecord { event_type: 3, code: 1, value: 512 });
    match ctx.poll_step(abs_y) {
        PollStep::Event(ev) => {
            assert_eq!(ev.event_type, ManyMouseEventType::Absmotion);
            assert_eq!(ev.item, 1);
            assert_eq!(ev.minval, Some(0));
            assert_eq!(ev.maxval, Some(767));
        }
        other => panic!("expected an event, got {:?}", other),
    }
}

#[test]
fn read_failure_is_fatal_for_the_poll_call() {
    let mut ctx = context_with(2);
    assert_eq!(ctx.poll_start(), PollStep::Read(0));
    assert_eq!(ctx.poll_step(ReadOutcome::Failure), PollStep::Failed);
    // the next call starts a fresh scan
    assert_eq!(ctx.poll_start(), PollStep::Read(0));
}

#[test]
fn driver_name_names_the_backend() {
    let ctx = EventContext::new();
    assert_eq!(ctx.driver_name(), "Linux evdev");
}

#[test]
fn context_facade_reaches_the_registry() {
    let mut ctx = EventContext::new();
    let name = b"tablet".to_vec();
    ctx.driver.init_mouse(9, MouseClass::RelativeMouse, None, Some(&name));
    assert_eq!(ctx.get_all_mouse_ids(), vec![0]);
    let names = ctx.get_all_mouse_names();
    assert_eq!(names.len(), 1);
    assert_eq!(&names[0][..6], b"tablet");
    assert_eq!(&ctx.device_name(0).unwrap()[..6], b"tablet");
    assert!(ctx.device_name(1).is_none());
}

#[test]
fn default_context_is_the_empty_context() {
    let ctx = EventContext::default();
    assert_eq!(ctx.driver.available_mice, 0);
    assert_eq!(ctx.get_all_mouse_ids(), Vec::<usize>::new());
}

#[test]
fn backend_selection_finds_the_first_native_preference() {
    assert_eq!(
        manymouser::select_backend(&vec![DriverOptions::LinuxEvDev, DriverOptions::ManyMouse]),
        Some(0)
    );
    assert_eq!(
        manymouser::select_backend(&vec![DriverOptions::ManyMouse, DriverOptions::LinuxEvDev]),
        Some(1)
    );
    assert_eq!(manymouser::select_backend(&vec![DriverOptions::ManyMouse]), None);
    assert_eq!(manymouser::select_backend(&Vec::new()), None);
}
