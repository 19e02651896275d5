use dmx_udp::dispatch::event_code;
use dmx_udp::dispatch::event_from_code;
use dmx_udp::dispatch::Dispatcher;
use dmx_udp::dispatch::Event;
use dmx_udp::dispatch::SignalKind;

#[test]
fn event_codes_round_trip() {
    let all = [Event::Signal, Event::Udp, Event::Dmx, Event::Tick];
    for e in all {
        assert_eq!(event_from_code(event_code(e)), Some(e));
    }
    assert_eq!(event_code(Event::Signal), 1);
    assert_eq!(event_code(Event::Udp), 2);
    assert_eq!(event_code(Event::Dmx), 3);
    assert_eq!(event_code(Event::Tick), 4);
    assert_eq!(event_from_code(0), None);
    assert_eq!(event_from_code(5), None);
    assert_eq!(event_from_code(u64::MAX), None);
}

#[test]
fn fresh_dispatcher_state() {
    let d = Dispatcher::new(45, false);
    assert!(!d.exiting);
    assert!(!d.saw_datagram);
    assert_eq!(d.datagrams_received, 0);
    assert_eq!(d.frames_transmitted, 0);
    assert_eq!(d.frame.get(0), 0);
    assert_eq!(d.frame.get(512), 0);
}

#[test]
fn throttle_skips_close_events_and_allows_spaced_ones() {
    // 45 frames/sec gives a 22 ms minimum spacing.
    let mut d = Dispatcher::new(45, false);
    assert!(d.should_transmit(100));
    d.on_transmitted(100, true);
    // A second readiness event less than 22 ms later transmits nothing.
    assert!(!d.should_transmit(110));
    assert!(!d.should_transmit(121));
    // One a full interval later transmits again.
    assert!(d.should_transmit(122));
    d.on_transmitted(122, true);
    assert_eq!(d.frames_transmitted, 2);
}

#[test]
fn waiting_for_first_datagram_gates_transmission() {
    let mut d = Dispatcher::new(45, true);
    assert!(!d.should_transmit(1000));
    d.on_datagram(&[1, 2, 3]);
    assert!(d.saw_datagram);
    assert!(d.should_transmit(1000));
}

#[test]
fn datagrams_update_frame_and_counter() {
    let mut d = Dispatcher::new(45, false);
    d.on_datagram(&[5, 6]);
    d.on_datagram(&[7]);
    assert_eq!(d.datagrams_received, 2);
    assert_eq!(d.frame.get(0), 0);
    assert_eq!(d.frame.get(1), 7);
    assert_eq!(d.frame.get(2), 6);
}

#[test]
fn termination_signals_set_the_exit_flag() {
    let mut d = Dispatcher::new(45, false);
    assert_eq!(d.on_signal(SignalKind::Interrupt), None);
    assert!(d.exiting);
    let mut d = Dispatcher::new(45, false);
    assert_eq!(d.on_signal(SignalKind::Terminate), None);
    assert!(d.exiting);
    let mut d = Dispatcher::new(45, false);
    assert_eq!(d.on_signal(SignalKind::Other), None);
    assert!(!d.exiting);
}

#[test]
fn rate_report_signal_reports_last_deltas() {
    let mut d = Dispatcher::new(45, false);
    d.on_datagram(&[1]);
    d.on_datagram(&[2]);
    d.on_transmitted(100, true);
    // Nothing latched before the first tick.
    assert_eq!(d.on_signal(SignalKind::RateReport), Some((0, 0)));
    assert_eq!(d.on_tick(), Some((2, 1)));
    assert_eq!(d.on_signal(SignalKind::RateReport), Some((2, 1)));
}

#[test]
fn ticks_latch_per_interval_deltas() {
    let mut d = Dispatcher::new(45, false);
    d.on_datagram(&[1]);
    d.on_datagram(&[2]);
    d.on_datagram(&[3]);
    d.on_transmitted(50, true);
    d.on_transmitted(100, true);
    assert_eq!(d.on_tick(), Some((3, 2)));
    assert_eq!(d.on_tick(), Some((0, 0)));
    d.on_datagram(&[4]);
    assert_eq!(d.on_tick(), Some((1, 0)));
}

#[test]
fn transmit_error_is_fatal() {
    let mut d = Dispatcher::new(45, false);
    d.on_transmitted(100, false);
    assert!(d.exiting);
    assert!(!d.should_transmit(10000));
}

#[test]
fn exit_flag_short_circuits_the_batch() {
    let mut d = Dispatcher::new(45, false);
    d.on_datagram(&[1, 2, 3]);
    d.on_signal(SignalKind::Interrupt);
    assert!(d.exiting);
    // Every further event of the batch leaves the state untouched.
    d.on_datagram(&[9, 9, 9]);
    assert_eq!(d.datagrams_received, 1);
    assert_eq!(d.frame.get(1), 1);
    assert!(!d.should_transmit(1_000_000));
    d.on_transmitted(1_000_000, true);
    assert_eq!(d.frames_transmitted, 0);
    assert_eq!(d.on_tick(), None);
    assert_eq!(d.on_signal(SignalKind::RateReport), None);
}
