use sim_cadence::clock::SimulationClock;
use sim_cadence::errors::{ConfigError, DispatchFailed};
use sim_cadence::gate::CadenceGate;
use sim_cadence::message::{build_payload, DeliveryGuarantee, Urgency};
use sim_cadence::sender::CadenceGatedSender;

fn range_vec(lo: u32, hi: u32) -> Vec<u32> {
    (lo..=hi).collect()
}

#[test]
fn zero_frame_duration_is_rejected() {
    let r = SimulationClock::new(0);
    assert!(r.is_err());
    assert_eq!(r.err().unwrap(), ConfigError::InvalidConfiguration);
}

#[test]
fn half_second_at_sixty_hertz_yields_thirty_frames() {
    // One sixtieth of a second, in whole nanoseconds.
    let mut clock = SimulationClock::new(16_666_666).unwrap();
    let frames = clock.advance(500_000_000);
    assert_eq!(frames, range_vec(1, 30));
    assert_eq!(clock.next_frame_number(), 30);
}

#[test]
fn zero_elapsed_is_a_noop() {
    let mut clock = SimulationClock::new(10).unwrap();
    clock.advance(25);
    let next_before = clock.next_frame_number();
    let acc_before = clock.accumulated_nanos();
    let frames = clock.advance(0);
    assert!(frames.is_empty());
    assert_eq!(clock.next_frame_number(), next_before);
    assert_eq!(clock.accumulated_nanos(), acc_before);
}

#[test]
fn accumulation_is_lossless_and_split_independent() {
    let samples: [u64; 6] = [5, 9, 3, 0, 20, 1];
    let total: u64 = samples.iter().sum();
    let mut split = SimulationClock::new(7).unwrap();
    for s in samples {
        split.advance(s);
    }
    let mut whole = SimulationClock::new(7).unwrap();
    whole.advance(total);
    assert_eq!(split.next_frame_number(), (total / 7) as u32);
    assert_eq!(whole.next_frame_number(), split.next_frame_number());
    assert_eq!(whole.accumulated_nanos(), split.accumulated_nanos());
}

#[test]
fn successive_batches_are_consecutive_with_no_gaps() {
    let mut clock = SimulationClock::new(10).unwrap();
    let first = clock.advance(25);
    assert_eq!(first, vec![1, 2]);
    let second = clock.advance(17);
    assert_eq!(second, vec![3, 4]);
    assert_eq!(clock.accumulated_nanos(), 2);
    let third = clock.advance(8);
    assert_eq!(third, vec![5]);
}

#[test]
fn large_catch_up_batch_drops_no_frame() {
    let mut clock = SimulationClock::new(1).unwrap();
    let frames = clock.advance(1000);
    assert_eq!(frames.len(), 1000);
    assert_eq!(frames[0], 1);
    assert_eq!(frames[999], 1000);
    assert_eq!(clock.next_frame_number(), 1000);
}

#[test]
fn clock_getters_report_configuration() {
    let clock = SimulationClock::new(42).unwrap();
    assert_eq!(clock.frame_duration_nanos(), 42);
    assert_eq!(clock.accumulated_nanos(), 0);
    assert_eq!(clock.next_frame_number(), 0);
}

#[test]
fn gate_enforces_minimum_spacing() {
    let mut gate = CadenceGate::new(5);
    let out = gate.filter(&vec![1, 2, 3, 10, 12, 14, 20]);
    assert_eq!(out, vec![10, 20]);
    for w in out.windows(2) {
        assert!(w[1] - w[0] >= 5);
    }
    assert_eq!(gate.last_triggered_frame(), 20);
}

#[test]
fn gate_scenario_two_batches_trigger_only_frame_sixty() {
    let mut gate = CadenceGate::new(60);
    let first = gate.filter(&range_vec(1, 30));
    assert!(first.is_empty());
    assert_eq!(gate.last_triggered_frame(), 0);
    let second = gate.filter(&range_vec(31, 90));
    assert_eq!(second, vec![60]);
    assert_eq!(gate.last_triggered_frame(), 60);
    let third = gate.filter(&range_vec(91, 125));
    assert_eq!(third, vec![120]);
    assert_eq!(gate.last_triggered_frame(), 120);
}

#[test]
fn gate_tolerates_duplicates_as_noops() {
    let mut gate = CadenceGate::new(2);
    let out = gate.filter(&vec![3, 3, 5, 5]);
    assert_eq!(out, vec![3, 5]);
}

#[test]
fn gate_with_zero_interval_passes_everything() {
    let mut gate = CadenceGate::new(0);
    let out = gate.filter(&vec![1, 1, 2]);
    assert_eq!(out, vec![1, 1, 2]);
    assert_eq!(gate.last_triggered_frame(), 2);
}

#[test]
fn gate_getters_report_configuration() {
    let gate = CadenceGate::new(60);
    assert_eq!(gate.min_interval_frames(), 60);
    assert_eq!(gate.last_triggered_frame(), 0);
}

#[test]
fn payload_encodes_frame_and_timestamp() {
    let ts: Vec<u8> = b"12.5".to_vec();
    let payload = build_payload(60, &ts);
    assert_eq!(payload, b"CL: sim_frame:60,abs_time:12.5".to_vec());
}

#[test]
fn payload_renders_multi_digit_frames() {
    let ts: Vec<u8> = b"0".to_vec();
    assert_eq!(build_payload(0, &ts), b"CL: sim_frame:0,abs_time:0".to_vec());
    assert_eq!(
        build_payload(4_294_967_295, &ts),
        b"CL: sim_frame:4294967295,abs_time:0".to_vec()
    );
}

#[test]
fn sender_builds_one_message_per_triggering_frame() {
    let mut sender = CadenceGatedSender::new(60, "127.0.0.1:3457");
    let ts: Vec<u8> = b"12.5".to_vec();
    let msgs = sender.on_frames(&range_vec(1, 60), &ts);
    assert_eq!(msgs.len(), 1);
    assert_eq!(msgs[0].frame, 60);
    assert_eq!(msgs[0].destination, "127.0.0.1:3457".to_string());
    assert_eq!(msgs[0].payload, b"CL: sim_frame:60,abs_time:12.5".to_vec());
    assert_eq!(msgs[0].delivery, DeliveryGuarantee::Reliable);
    assert_eq!(msgs[0].urgency, Urgency::Immediate);
    assert_eq!(sender.last_triggered_frame(), 60);
}

#[test]
fn dispatch_failure_does_not_roll_back_the_gate() {
    let mut sender = CadenceGatedSender::new(60, "127.0.0.1:3457");
    let ts: Vec<u8> = b"1.0".to_vec();
    let msgs = sender.on_frames(&range_vec(1, 60), &ts);
    assert_eq!(msgs.len(), 1);
    // The transport reports failure for frame 60; the cadence gate
    // advanced before dispatch and stays put.
    let failure = DispatchFailed::new(60, "transport unavailable".to_string());
    assert_eq!(failure.frame, 60);
    assert_eq!(failure.cause, "transport unavailable".to_string());
    assert_eq!(sender.last_triggered_frame(), 60);
    // Frame 120 is still gated correctly and attempted later.
    let later = sender.on_frames(&range_vec(61, 120), &ts);
    assert_eq!(later.len(), 1);
    assert_eq!(later[0].payload, b"CL: sim_frame:120,abs_time:1.0".to_vec());
    assert_eq!(sender.last_triggered_frame(), 120);
}

#[test]
fn sender_getters_report_configuration() {
    let sender = CadenceGatedSender::new(60, "127.0.0.1:3457");
    assert_eq!(sender.min_interval_frames(), 60);
    assert_eq!(sender.last_triggered_frame(), 0);
    assert_eq!(sender.destination(), "127.0.0.1:3457".to_string());
}
