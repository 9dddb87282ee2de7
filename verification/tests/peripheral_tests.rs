use ble_dual_role::peripheral::{
    handle_write, peripheral_done, peripheral_failed, peripheral_init, peripheral_retry_delay_ms,
    peripheral_step, PeripheralEffect, PeripheralEvent, PeripheralState, ResponseKind, WriteLog,
};

#[test]
fn duty_cycle_begins_by_waiting_for_power() {
    assert_eq!(peripheral_init(), PeripheralState::AwaitPowerOn);
}

#[test]
fn power_gating_polls_every_five_seconds_too() {
    let s = PeripheralState::AwaitPowerOn;
    let off = PeripheralEvent::PowerChecked { on: false };
    let (next, effect) = peripheral_step(s, &off);
    assert_eq!(next, PeripheralState::AwaitPowerOn);
    assert_eq!(effect, PeripheralEffect::Quiet);
    assert_eq!(peripheral_retry_delay_ms(&s, &off), 5000);
    let on = PeripheralEvent::PowerChecked { on: true };
    let (next, _) = peripheral_step(s, &on);
    assert_eq!(next, PeripheralState::RegisterService);
    assert_eq!(peripheral_retry_delay_ms(&s, &on), 0);
}

#[test]
fn registration_and_advertising_failures_are_fatal() {
    let (s, _) = peripheral_step(
        PeripheralState::RegisterService,
        &PeripheralEvent::ServiceRegistered { ok: false },
    );
    assert_eq!(s, PeripheralState::Failed);
    assert!(peripheral_failed(&s));
    let (s, _) = peripheral_step(
        PeripheralState::StartAdvertising,
        &PeripheralEvent::AdvertisingStarted { ok: false },
    );
    assert_eq!(s, PeripheralState::Failed);
}

#[test]
fn startup_success_reaches_the_event_loop() {
    let mut s = peripheral_init();
    s = peripheral_step(s, &PeripheralEvent::PowerChecked { on: true }).0;
    s = peripheral_step(s, &PeripheralEvent::ServiceRegistered { ok: true }).0;
    s = peripheral_step(s, &PeripheralEvent::AdvertisingStarted { ok: true }).0;
    assert_eq!(s, PeripheralState::EventLoop);
}

#[test]
fn valid_write_gets_one_success_ack_and_its_value_logged() {
    let event = PeripheralEvent::WriteRequested { payload: vec![7, 0, 0, 0] };
    let (next, effect) = peripheral_step(PeripheralState::EventLoop, &event);
    assert_eq!(next, PeripheralState::EventLoop);
    assert_eq!(
        effect,
        PeripheralEffect::Respond {
            response: ResponseKind::Success,
            log: WriteLog::Received { value: 7 },
        }
    );
}

#[test]
fn malformed_write_still_gets_a_success_ack() {
    let event = PeripheralEvent::WriteRequested { payload: vec![1, 2] };
    let (next, effect) = peripheral_step(PeripheralState::EventLoop, &event);
    assert_eq!(next, PeripheralState::EventLoop);
    assert_eq!(
        effect,
        PeripheralEffect::Respond {
            response: ResponseKind::Success,
            log: WriteLog::BadLength { len: 2 },
        }
    );
}

#[test]
fn negative_values_are_logged_as_written() {
    let (resp, log) = handle_write(&vec![255, 255, 255, 255]);
    assert_eq!(resp, ResponseKind::Success);
    assert_eq!(log, WriteLog::Received { value: -1 });
}

#[test]
fn only_the_first_four_bytes_are_interpreted() {
    let (_, log) = handle_write(&vec![3, 0, 0, 0, 200, 200]);
    assert_eq!(log, WriteLog::Received { value: 3 });
}

#[test]
fn empty_payload_warns_with_length_zero() {
    let (resp, log) = handle_write(&vec![]);
    assert_eq!(resp, ResponseKind::Success);
    assert_eq!(log, WriteLog::BadLength { len: 0 });
}

#[test]
fn unrecognized_event_kinds_are_noted_and_ignored() {
    let (next, effect) = peripheral_step(PeripheralState::EventLoop, &PeripheralEvent::OtherDelivered);
    assert_eq!(next, PeripheralState::EventLoop);
    assert_eq!(effect, PeripheralEffect::NoteUnhandled);
}

#[test]
fn channel_closure_ends_the_loop_cleanly() {
    let (next, effect) = peripheral_step(PeripheralState::EventLoop, &PeripheralEvent::ChannelClosed);
    assert_eq!(next, PeripheralState::Done);
    assert_eq!(effect, PeripheralEffect::Quiet);
    assert!(peripheral_done(&next));
    assert!(!peripheral_failed(&next));
}
