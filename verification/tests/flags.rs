use ota_provision::flags::{EventFlags, WaitStep, CONNECTED, PROVISIONING_DONE};

#[test]
fn new_flags_are_all_lowered() {
    let flags = EventFlags::new();
    assert_eq!(flags.bits(), 0);
    assert!(!flags.contains(CONNECTED));
    assert!(!flags.contains(PROVISIONING_DONE));
}

#[test]
fn set_raises_and_keeps_what_was_set() {
    let mut flags = EventFlags::new();
    flags.set(CONNECTED);
    assert_eq!(flags.bits(), 1);
    flags.set(PROVISIONING_DONE);
    assert_eq!(flags.bits(), 3);
    flags.set(CONNECTED);
    assert_eq!(flags.bits(), 3);
    assert!(flags.contains(CONNECTED | PROVISIONING_DONE));
}

#[test]
fn clear_lowers_only_what_is_named() {
    let mut flags = EventFlags::new();
    flags.set(CONNECTED | PROVISIONING_DONE);
    flags.clear(CONNECTED);
    assert_eq!(flags.bits(), 2);
    flags.clear(CONNECTED);
    assert_eq!(flags.bits(), 2);
    flags.clear(PROVISIONING_DONE);
    assert_eq!(flags.bits(), 0);
}

#[test]
fn flag_set_before_wait_is_observed() {
    let mut flags = EventFlags::new();
    flags.set(CONNECTED);
    let step = flags.wait(CONNECTED | PROVISIONING_DONE, false, false, false);
    assert_eq!(step, WaitStep::Ready(CONNECTED));
    assert_eq!(flags.bits(), CONNECTED);
}

#[test]
fn wait_for_any_returns_at_once_with_one_flag_set() {
    let mut flags = EventFlags::new();
    flags.set(PROVISIONING_DONE);
    let step = flags.wait(CONNECTED | PROVISIONING_DONE, true, false, false);
    assert_eq!(step, WaitStep::Ready(PROVISIONING_DONE));
    assert_eq!(flags.bits(), 0);
}

#[test]
fn wait_for_all_blocks_until_every_flag_is_set() {
    let mut flags = EventFlags::new();
    flags.set(CONNECTED);
    let mask = CONNECTED | PROVISIONING_DONE;
    assert_eq!(flags.wait(mask, true, true, false), WaitStep::Blocked);
    assert_eq!(flags.bits(), CONNECTED);
    flags.set(PROVISIONING_DONE);
    assert_eq!(flags.wait(mask, true, true, false), WaitStep::Ready(mask));
    assert_eq!(flags.bits(), 0);
}

#[test]
fn wait_returns_only_flags_of_the_mask() {
    let mut flags = EventFlags::new();
    flags.set(CONNECTED | PROVISIONING_DONE | 8);
    let step = flags.wait(CONNECTED | 4, true, false, false);
    assert_eq!(step, WaitStep::Ready(CONNECTED));
    assert_eq!(flags.bits(), PROVISIONING_DONE | 8);
}

#[test]
fn unsatisfied_wait_blocks_or_times_out_and_changes_nothing() {
    let mut flags = EventFlags::new();
    flags.set(PROVISIONING_DONE);
    assert_eq!(flags.wait(CONNECTED, true, false, false), WaitStep::Blocked);
    assert_eq!(flags.wait(CONNECTED, true, false, true), WaitStep::TimedOut);
    assert_eq!(flags.bits(), PROVISIONING_DONE);
}

#[test]
fn satisfied_wait_wins_over_expiry() {
    let mut flags = EventFlags::new();
    flags.set(CONNECTED);
    assert_eq!(flags.wait(CONNECTED, false, false, true), WaitStep::Ready(CONNECTED));
}

#[test]
fn empty_mask_is_satisfied_only_when_all_is_asked() {
    let mut flags = EventFlags::new();
    flags.set(CONNECTED);
    assert_eq!(flags.wait(0, false, false, false), WaitStep::Blocked);
    assert_eq!(flags.wait(0, false, true, false), WaitStep::Ready(0));
}
