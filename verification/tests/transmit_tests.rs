use dmx_udp::dispatch::Dispatcher;
use dmx_udp::transmit::spin_sleep;
use dmx_udp::transmit::transmit_sequence;
use dmx_udp::transmit::TxStep;
use dmx_udp::transmit::DMX_BREAK_MICROS;

#[test]
fn sequence_without_mark_after_break() {
    let steps = transmit_sequence(0);
    assert_eq!(
        steps,
        vec![
            TxStep::DrainOutput,
            TxStep::AssertBreak,
            TxStep::HoldMicros(138),
            TxStep::ClearBreak,
            TxStep::WriteFrame,
        ]
    );
}

#[test]
fn sequence_with_mark_after_break() {
    let steps = transmit_sequence(12);
    assert_eq!(
        steps,
        vec![
            TxStep::DrainOutput,
            TxStep::AssertBreak,
            TxStep::HoldMicros(138),
            TxStep::ClearBreak,
            TxStep::HoldMicros(12),
            TxStep::WriteFrame,
        ]
    );
}

#[test]
fn break_meets_the_standard_floor() {
    assert!(DMX_BREAK_MICROS >= 120);
    let steps = transmit_sequence(0);
    assert_eq!(steps[2], TxStep::HoldMicros(DMX_BREAK_MICROS));
}

#[test]
fn spin_sleep_waits_at_least_the_duration() {
    let start = std::time::Instant::now();
    spin_sleep(2000);
    assert!(start.elapsed().as_micros() >= 2000);
}

#[test]
fn burst_then_transmit_yields_the_last_frame() {
    // A burst of ten small datagrams followed by a full 512-channel frame,
    // then a write-readiness event under a 45 frames/sec throttle.
    let mut d = Dispatcher::new(45, false);
    for k in 1..=10u8 {
        d.on_datagram(&[k]);
    }
    d.on_datagram(&[255u8; 512]);
    assert_eq!(d.datagrams_received, 11);
    assert!(d.should_transmit(22));
    let frame = d.frame.as_slice();
    assert_eq!(frame.len(), 513);
    assert_eq!(frame[0], 0);
    for i in 1..=512usize {
        assert_eq!(frame[i], 255);
    }
    // The wire sequence precedes that write with a break of at least 120 us.
    let steps = transmit_sequence(0);
    assert_eq!(steps[1], TxStep::AssertBreak);
    match steps[2] {
        TxStep::HoldMicros(us) => assert!(us >= 120),
        _ => panic!("expected the break hold step"),
    }
    assert_eq!(steps[4], TxStep::WriteFrame);
    d.on_transmitted(22, true);
    assert_eq!(d.frames_transmitted, 1);
}
