use focus_capture::lifecycle::LivenessObservation;
use focus_capture::lifecycle::ShutdownCause;
use focus_capture::lifecycle::ShutdownSignal;
use focus_capture::lifecycle::coordinator_step;
use focus_capture::lifecycle::supervisor_step;
use focus_capture::trigger::Debouncer;
use focus_capture::trigger::TickAction;
use focus_capture::trigger::key_state_down;
use focus_capture::trigger::trigger_tick;

#[test]
fn key_state_reads_the_high_bit() {
    assert!(key_state_down(0x8000));
    assert!(key_state_down(0xFFFF));
    assert!(!key_state_down(0x7FFF));
    assert!(!key_state_down(0));
}

#[test]
fn debouncer_accepts_the_first_trigger() {
    let mut deb = Debouncer::new();
    assert!(deb.try_accept(0));
}

#[test]
fn debouncer_enforces_the_spacing() {
    let mut deb = Debouncer::new();
    assert!(deb.try_accept(1000));
    assert!(!deb.try_accept(1000));
    assert!(!deb.try_accept(1700));
    assert!(deb.try_accept(1701));
    assert!(!deb.try_accept(2400));
    assert!(deb.try_accept(2402));
}

#[test]
fn rejected_trigger_keeps_the_window() {
    let mut deb = Debouncer::new();
    assert!(deb.try_accept(1000));
    // A rejected chord must not push the window forward.
    assert!(!deb.try_accept(1600));
    assert!(deb.try_accept(1701));
}

#[test]
fn tick_exits_on_shutdown() {
    let mut deb = Debouncer::new();
    let action = trigger_tick(true, true, true, true, &mut deb, 0);
    assert_eq!(action, TickAction::Exit);
}

#[test]
fn tick_fires_only_on_the_full_chord() {
    let mut deb = Debouncer::new();
    assert_eq!(trigger_tick(false, true, true, false, &mut deb, 0), TickAction::Idle);
    assert_eq!(trigger_tick(false, true, false, true, &mut deb, 0), TickAction::Idle);
    assert_eq!(trigger_tick(false, false, true, true, &mut deb, 0), TickAction::Idle);
    assert_eq!(trigger_tick(false, true, true, true, &mut deb, 0), TickAction::Fire);
    // Within the debounce window the chord is ignored.
    assert_eq!(trigger_tick(false, true, true, true, &mut deb, 600), TickAction::Idle);
    assert_eq!(trigger_tick(false, true, true, true, &mut deb, 701), TickAction::Fire);
}

#[test]
fn signal_starts_unraised_and_stays_raised() {
    let mut signal = ShutdownSignal::new();
    assert!(!signal.is_raised());
    signal.raise();
    assert!(signal.is_raised());
    signal.raise();
    assert!(signal.is_raised());
}

#[test]
fn supervisor_raises_on_exit() {
    let mut signal = ShutdownSignal::new();
    assert!(!supervisor_step(&mut signal, LivenessObservation::Running));
    assert!(!signal.is_raised());
    assert!(supervisor_step(&mut signal, LivenessObservation::Exited));
    assert!(signal.is_raised());
}

#[test]
fn supervisor_raises_on_query_failure() {
    let mut signal = ShutdownSignal::new();
    assert!(supervisor_step(&mut signal, LivenessObservation::QueryFailed));
    assert!(signal.is_raised());
}

#[test]
fn exit_propagates_to_the_next_tick() {
    let mut signal = ShutdownSignal::new();
    supervisor_step(&mut signal, LivenessObservation::Exited);
    let mut deb = Debouncer::new();
    let action = trigger_tick(signal.is_raised(), true, true, true, &mut deb, 0);
    assert_eq!(action, TickAction::Exit);
}

#[test]
fn every_cause_raises_and_only_live_companions_are_killed() {
    let mut signal = ShutdownSignal::new();
    assert!(coordinator_step(&mut signal, ShutdownCause::TrayQuit));
    assert!(signal.is_raised());

    let mut signal = ShutdownSignal::new();
    assert!(coordinator_step(&mut signal, ShutdownCause::Interrupt));
    assert!(signal.is_raised());

    let mut signal = ShutdownSignal::new();
    assert!(!coordinator_step(&mut signal, ShutdownCause::CompanionExit));
    assert!(signal.is_raised());
}
