use ble_dual_role::central::{
    central_action, central_failed, central_init, central_retry_delay_ms, central_step,
    wrapping_inc, CentralAction, CentralEvent, CentralState,
};
use ble_dual_role::codec::encode_counter;
use ble_dual_role::peripheral::{handle_write, ResponseKind, WriteLog};

#[test]
fn duty_cycle_begins_by_acquiring_the_adapter() {
    assert_eq!(central_init(), CentralState::AcquireAdapter);
}

#[test]
fn adapter_acquisition_failure_is_fatal() {
    let s = central_step(
        CentralState::AcquireAdapter,
        CentralEvent::AdapterAcquired { ok: false },
    );
    assert_eq!(s, CentralState::Failed);
    assert!(central_failed(&s));
}

#[test]
fn power_gating_polls_every_five_seconds() {
    let s = CentralState::AwaitPowerOn;
    let off = CentralEvent::PowerChecked { on: false };
    assert_eq!(central_step(s, off), CentralState::AwaitPowerOn);
    assert_eq!(central_retry_delay_ms(&s, &off), 5000);
    let on = CentralEvent::PowerChecked { on: true };
    assert_eq!(central_step(s, on), CentralState::StartScan);
    assert_eq!(central_retry_delay_ms(&s, &on), 0);
}

#[test]
fn scan_start_failure_is_fatal() {
    let s = central_step(CentralState::StartScan, CentralEvent::ScanStarted { ok: false });
    assert_eq!(s, CentralState::Failed);
}

#[test]
fn service_discovery_failure_is_fatal_not_retried() {
    let s = central_step(
        CentralState::ResolveServices,
        CentralEvent::ServicesDiscovered { ok: false },
    );
    assert_eq!(s, CentralState::Failed);
    assert!(central_failed(&s));
}

#[test]
fn connect_failures_then_success_reach_write_loop() {
    let mut s = CentralState::DiscoverPeer;
    for _ in 0..5 {
        s = central_step(s, CentralEvent::PeerSearched { found: true });
        assert_eq!(s, CentralState::Connect);
        let fail = CentralEvent::Connected { ok: false };
        assert_eq!(central_retry_delay_ms(&s, &fail), 5000);
        s = central_step(s, fail);
        // after every failed connect the peer list is queried afresh
        assert_eq!(s, CentralState::DiscoverPeer);
        assert_eq!(central_action(&s), CentralAction::SearchPeer);
    }
    s = central_step(s, CentralEvent::PeerSearched { found: true });
    s = central_step(s, CentralEvent::Connected { ok: true });
    assert_eq!(s, CentralState::ResolveServices);
    s = central_step(s, CentralEvent::ServicesDiscovered { ok: true });
    s = central_step(s, CentralEvent::CharacteristicSearched { found: true });
    assert_eq!(s, CentralState::WriteLoop { counter: 0 });
}

#[test]
fn missing_characteristic_restarts_from_peer_discovery() {
    let s = CentralState::ResolveCharacteristic;
    let missing = CentralEvent::CharacteristicSearched { found: false };
    assert_eq!(central_step(s, missing), CentralState::DiscoverPeer);
    assert_eq!(central_retry_delay_ms(&s, &missing), 5000);
}

#[test]
fn absent_peer_keeps_discovering_indefinitely() {
    let mut s = CentralState::DiscoverPeer;
    let nothing = CentralEvent::PeerSearched { found: false };
    for _ in 0..100 {
        assert_eq!(central_retry_delay_ms(&s, &nothing), 2000);
        s = central_step(s, nothing);
        assert_eq!(s, CentralState::DiscoverPeer);
        assert!(!central_failed(&s));
    }
}

#[test]
fn counter_advances_by_one_per_write_even_on_failure() {
    let mut s = CentralState::WriteLoop { counter: 0 };
    for i in 0..10 {
        let ok = i % 3 != 0;
        s = central_step(s, CentralEvent::WroteCounter { ok });
        assert_eq!(s, CentralState::WriteLoop { counter: i + 1 });
    }
}

#[test]
fn counter_wraps_past_max_to_min() {
    assert_eq!(wrapping_inc(i32::MAX), i32::MIN);
    let s = central_step(
        CentralState::WriteLoop { counter: i32::MAX },
        CentralEvent::WroteCounter { ok: true },
    );
    assert_eq!(s, CentralState::WriteLoop { counter: i32::MIN });
}

#[test]
fn each_state_demands_its_operation() {
    assert_eq!(
        central_action(&CentralState::AcquireAdapter),
        CentralAction::AcquireAdapter
    );
    assert_eq!(central_action(&CentralState::AwaitPowerOn), CentralAction::CheckPower);
    assert_eq!(central_action(&CentralState::StartScan), CentralAction::StartScan);
    assert_eq!(central_action(&CentralState::DiscoverPeer), CentralAction::SearchPeer);
    assert_eq!(central_action(&CentralState::Connect), CentralAction::ConnectPeer);
    assert_eq!(
        central_action(&CentralState::ResolveServices),
        CentralAction::DiscoverServices
    );
    assert_eq!(
        central_action(&CentralState::ResolveCharacteristic),
        CentralAction::SearchCharacteristic
    );
    assert_eq!(
        central_action(&CentralState::WriteLoop { counter: 3 }),
        CentralAction::WriteCounter { counter: 3 }
    );
    assert_eq!(central_action(&CentralState::Failed), CentralAction::ReportFatal);
}

#[test]
fn loopback_first_three_writes_decode_to_0_1_2() {
    // central side: attach, then write three counters
    let mut s = CentralState::DiscoverPeer;
    s = central_step(s, CentralEvent::PeerSearched { found: true });
    s = central_step(s, CentralEvent::Connected { ok: true });
    s = central_step(s, CentralEvent::ServicesDiscovered { ok: true });
    s = central_step(s, CentralEvent::CharacteristicSearched { found: true });
    let mut seen: Vec<i32> = Vec::new();
    for _ in 0..3 {
        let counter = match central_action(&s) {
            CentralAction::WriteCounter { counter } => counter,
            other => panic!("expected a write, got {:?}", other),
        };
        // peripheral side: the payload arrives and is logged
        let payload = encode_counter(counter);
        let (resp, log) = handle_write(&payload);
        assert_eq!(resp, ResponseKind::Success);
        match log {
            WriteLog::Received { value } => seen.push(value),
            WriteLog::BadLength { len } => panic!("unexpected length warning: {}", len),
        }
        s = central_step(s, CentralEvent::WroteCounter { ok: true });
    }
    assert_eq!(seen, vec![0, 1, 2]);
}
