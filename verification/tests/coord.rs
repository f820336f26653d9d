use edge_coord::blinker::{BlinkEvent, Blinker, DELAY_LONG, DELAY_SHORT};
use edge_coord::edge::EdgeDetector;
use edge_coord::gate::{run_notes, TriggerGate};
use edge_coord::hub::Hub;

#[test]
fn detector_steady_low_is_silent() {
    let mut det = EdgeDetector::new();
    let emits = det.sample_all(&vec![false, false, false, false]);
    assert_eq!(emits, vec![false, false, false, false]);
}

#[test]
fn detector_steady_high_emits_once() {
    let mut det = EdgeDetector::new();
    let emits = det.sample_all(&vec![true, true, true, true]);
    assert_eq!(emits, vec![true, false, false, false]);
}

#[test]
fn detector_emits_on_each_rising_edge_only() {
    let mut det = EdgeDetector::new();
    let emits = det.sample_all(&vec![false, true, true, false, true, false, false, true]);
    assert_eq!(emits, vec![false, true, false, false, true, false, false, true]);
}

#[test]
fn detector_updates_last_level_unconditionally() {
    let mut det = EdgeDetector::new();
    assert!(det.sample(true));
    assert!(!det.sample(true));
    assert!(!det.sample(false));
    assert!(det.sample(true));
}

#[test]
fn hub_delivers_to_both_in_send_order() {
    let mut hub = Hub::new();
    hub.send(true);
    hub.send(false);
    hub.send(true);
    let mut blinker_saw = Vec::new();
    while let Some(b) = hub.recv_blinker() {
        blinker_saw.push(b);
    }
    let mut gate_saw = Vec::new();
    while let Some(b) = hub.recv_gate() {
        gate_saw.push(b);
    }
    assert_eq!(blinker_saw, vec![true, false, true]);
    assert_eq!(gate_saw, vec![true, false, true]);
}

#[test]
fn hub_consumers_are_independent() {
    let mut hub = Hub::new();
    hub.send(true);
    assert_eq!(hub.recv_gate(), Some(true));
    assert_eq!(hub.recv_gate(), None);
    hub.send(false);
    // The blinker still sees everything, in order, however late it drains.
    assert_eq!(hub.recv_blinker(), Some(true));
    assert_eq!(hub.recv_blinker(), Some(false));
    assert_eq!(hub.recv_blinker(), None);
    assert_eq!(hub.recv_gate(), Some(false));
}

#[test]
fn blinker_starts_idle_with_long_period() {
    let blinker = Blinker::new();
    assert_eq!(blinker.target_period(), DELAY_LONG);
    assert_eq!(DELAY_LONG, 1000);
    assert_eq!(DELAY_SHORT, 100);
}

#[test]
fn blinker_toggles_on_every_tick_without_notifications() {
    let mut blinker = Blinker::new();
    assert_eq!(blinker.step(BlinkEvent::Tick), Some(true));
    assert_eq!(blinker.target_period(), DELAY_LONG);
    assert_eq!(blinker.step(BlinkEvent::Tick), Some(false));
    assert_eq!(blinker.target_period(), DELAY_LONG);
    assert_eq!(blinker.step(BlinkEvent::Tick), Some(true));
    assert_eq!(blinker.target_period(), DELAY_LONG);
}

#[test]
fn blinker_notification_retargets_without_toggling() {
    let mut blinker = Blinker::new();
    assert_eq!(blinker.step(BlinkEvent::Note(true)), None);
    // The next wait, not the current output, changes.
    assert_eq!(blinker.target_period(), DELAY_SHORT);
    assert_eq!(blinker.step(BlinkEvent::Tick), Some(true));
    assert_eq!(blinker.target_period(), DELAY_SHORT);
    assert_eq!(blinker.step(BlinkEvent::Note(false)), None);
    assert_eq!(blinker.target_period(), DELAY_LONG);
}

#[test]
fn blinker_storm_last_notification_wins() {
    let mut blinker = Blinker::new();
    let outs = blinker.step_all(&vec![
        BlinkEvent::Note(true),
        BlinkEvent::Note(false),
        BlinkEvent::Note(true),
        BlinkEvent::Note(false),
    ]);
    assert_eq!(outs, Vec::<bool>::new());
    assert_eq!(blinker.target_period(), DELAY_LONG);
    let outs = blinker.step_all(&vec![BlinkEvent::Note(false), BlinkEvent::Note(true)]);
    assert_eq!(outs, Vec::<bool>::new());
    assert_eq!(blinker.target_period(), DELAY_SHORT);
}

#[test]
fn blinker_run_records_toggles_in_order() {
    let mut blinker = Blinker::new();
    let outs = blinker.step_all(&vec![
        BlinkEvent::Tick,
        BlinkEvent::Note(true),
        BlinkEvent::Tick,
        BlinkEvent::Tick,
    ]);
    assert_eq!(outs, vec![true, false, true]);
}

#[test]
fn gate_dispatches_once_per_active_notification() {
    let mut gate = TriggerGate::new();
    assert_eq!(run_notes(&mut gate, &vec![true]), 1);
    assert_eq!(run_notes(&mut gate, &vec![true, true]), 2);
    assert_eq!(run_notes(&mut gate, &vec![false, false, false]), 0);
    assert_eq!(run_notes(&mut gate, &vec![false, true, false, true]), 2);
    assert!(!gate.is_pending());
}

#[test]
fn gate_idle_notification_is_a_no_op() {
    let mut gate = TriggerGate::new();
    assert!(!gate.on_note(false));
    assert!(!gate.is_pending());
}

#[test]
fn gate_returns_to_idle_after_each_exchange() {
    let mut gate = TriggerGate::new();
    assert!(gate.on_note(true));
    assert!(gate.is_pending());
    gate.complete();
    assert!(!gate.is_pending());
    // The next rising edge causes one request of its own.
    assert!(gate.on_note(true));
    assert!(gate.is_pending());
    gate.complete();
    assert!(!gate.is_pending());
}

#[test]
fn back_to_back_edges_dispatch_twice_sequentially() {
    // Two active notifications queued while the first exchange is still in
    // flight: both are eventually dispatched, never concurrently.
    let mut hub = Hub::new();
    hub.send(true);
    hub.send(true);
    let mut gate = TriggerGate::new();
    let mut dispatched = 0;
    while let Some(b) = hub.recv_gate() {
        assert!(!gate.is_pending());
        if gate.on_note(b) {
            dispatched += 1;
            gate.complete();
        }
    }
    assert_eq!(dispatched, 2);
}

#[test]
fn pipeline_samples_to_dispatches() {
    // Two rising edges in the sampled history: exactly two dispatches, and
    // the blinker sees the same two notifications.
    let samples = vec![false, true, true, false, false, true];
    let mut det = EdgeDetector::new();
    let mut hub = Hub::new();
    let emits = det.sample_all(&samples);
    for e in emits {
        if e {
            hub.send(true);
        }
    }
    let mut gate_notes = Vec::new();
    while let Some(b) = hub.recv_gate() {
        gate_notes.push(b);
    }
    assert_eq!(gate_notes, vec![true, true]);
    let mut gate = TriggerGate::new();
    assert_eq!(run_notes(&mut gate, &gate_notes), 2);
    let mut blinker_notes = Vec::new();
    while let Some(b) = hub.recv_blinker() {
        blinker_notes.push(b);
    }
    assert_eq!(blinker_notes, vec![true, true]);
}
