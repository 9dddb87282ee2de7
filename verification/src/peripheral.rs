//! The peripheral role's duty cycle: wait for adapter power, register the
//! fixed service with its write-only characteristic, start advertising, and
//! then consume incoming events until the event channel closes.
//!
//! Every incoming write request is answered with exactly one success
//! acknowledgment, whatever its payload holds: the link cares about
//! liveness, not payload correctness. A payload of at least 4 bytes has its
//! first 4 bytes logged as a little-endian signed counter; a shorter one is
//! logged as a length mismatch. Channel closure ends the cycle cleanly.

use vstd::prelude::*;

use crate::codec::{decode_payload, spec_counter_of_payload};
use crate::protocol::POWER_POLL_DELAY_MS;

verus! {

/// Where the peripheral duty cycle stands.
#[derive(Clone, Copy, Debug, PartialEq, Eq, Structural)]
pub enum PeripheralState {
    /// Poll the adapter power state until it is on; never fails.
    AwaitPowerOn,
    /// Register the fixed service and characteristic; fatal on failure.
    RegisterService,
    /// Broadcast the device name and service identifier; fatal on failure.
    StartAdvertising,
    /// Consume events from the channel until it closes.
    EventLoop,
    /// The channel closed: the duty cycle ended cleanly, with success.
    Done,
    /// An environment-fatal error was met; the duty cycle is over.
    Failed,
}

/// The outcome of the stack operation the current state called for, or an
/// event delivered through the channel while in the event loop.
#[derive(Clone, Debug)]
pub enum PeripheralEvent {
    /// The adapter power state was polled.
    PowerChecked { on: bool },
    /// The service registration call finished.
    ServiceRegistered { ok: bool },
    /// The advertising start call finished.
    AdvertisingStarted { ok: bool },
    /// A remote central wrote `payload` to the characteristic.
    WriteRequested { payload: Vec<u8> },
    /// The stack delivered an event of some other, open-ended kind.
    OtherDelivered,
    /// The event channel closed: no more events will ever arrive.
    ChannelClosed,
}

/// What an incoming write request's payload is logged as.
#[derive(Clone, Copy, Debug, PartialEq, Eq, Structural)]
pub enum WriteLog {
    /// The little-endian signed counter read from the first 4 bytes.
    Received { value: i32 },
    /// The payload was shorter than 4 bytes; its length is reported.
    BadLength { len: usize },
}

/// What a write request is answered with. The underlying stack knows
/// several distinct error responses; this model only needs whether a
/// response acknowledges success — and the duty cycle only ever sends
/// success.
#[derive(Clone, Copy, Debug, PartialEq, Eq, Structural)]
pub enum ResponseKind {
    Success,
    Failure,
}

/// What the runtime must do after a step of the peripheral duty cycle.
#[derive(Clone, Copy, Debug, PartialEq, Eq, Structural)]
pub enum PeripheralEffect {
    /// Send exactly one `response` to the request's responder and write
    /// `log` to the diagnostic log.
    Respond { response: ResponseKind, log: WriteLog },
    /// Log the event as unhandled; nothing else.
    NoteUnhandled,
    /// Nothing to do.
    Quiet,
}

/// How a payload is logged: payloads of at least 4 bytes have their first
/// 4 bytes read as a little-endian signed counter; shorter ones are logged
/// with their length.
pub open spec fn spec_write_log(p: Seq<u8>) -> WriteLog
    recommends
        p.len() <= usize::MAX,
{
    if p.len() >= 4 {
        WriteLog::Received { value: spec_counter_of_payload(p) }
    } else {
        WriteLog::BadLength { len: p.len() as usize }
    }
}

/// The transition relation of the peripheral duty cycle, with the effect
/// each step demands of the runtime.
///
/// A write request is always answered with one success response, whatever
/// the payload holds; an unrecognized event kind is logged and ignored;
/// channel closure moves to `Done`. An event that does not belong to the
/// current state leaves it unchanged with nothing to do.
pub open spec fn spec_peripheral_step(s: PeripheralState, e: PeripheralEvent) -> (
    PeripheralState,
    PeripheralEffect,
) {
    match (s, e) {
        (PeripheralState::AwaitPowerOn, PeripheralEvent::PowerChecked { on }) => (
            if on {
                PeripheralState::RegisterService
            } else {
                PeripheralState::AwaitPowerOn
            },
            PeripheralEffect::Quiet,
        ),
        (PeripheralState::RegisterService, PeripheralEvent::ServiceRegistered { ok }) => (
            if ok {
                PeripheralState::StartAdvertising
            } else {
                PeripheralState::Failed
            },
            PeripheralEffect::Quiet,
        ),
        (PeripheralState::StartAdvertising, PeripheralEvent::AdvertisingStarted { ok }) => (
            if ok {
                PeripheralState::EventLoop
            } else {
                PeripheralState::Failed
            },
            PeripheralEffect::Quiet,
        ),
        (PeripheralState::EventLoop, PeripheralEvent::WriteRequested { payload }) => (
            PeripheralState::EventLoop,
            PeripheralEffect::Respond {
                response: ResponseKind::Success,
                log: spec_write_log(payload@),
            },
        ),
        (PeripheralState::EventLoop, PeripheralEvent::OtherDelivered) => (
            PeripheralState::EventLoop,
            PeripheralEffect::NoteUnhandled,
        ),
        (PeripheralState::EventLoop, PeripheralEvent::ChannelClosed) => (
            PeripheralState::Done,
            PeripheralEffect::Quiet,
        ),
        _ => (s, PeripheralEffect::Quiet),
    }
}

/// The state in which the peripheral duty cycle begins.
pub fn peripheral_init() -> (s: PeripheralState)
    ensures
        s == PeripheralState::AwaitPowerOn,
{
    PeripheralState::AwaitPowerOn
}

/// Answers one incoming write request: the response is always success, and
/// the payload is logged as its decoded counter when it carries at least
/// 4 bytes, else as a length mismatch.
pub fn handle_write(payload: &Vec<u8>) -> (r: (ResponseKind, WriteLog))
    ensures
        r.0 == ResponseKind::Success,
        payload@.len() >= 4 ==> r.1 == (WriteLog::Received {
            value: spec_counter_of_payload(payload@),
        }),
        payload@.len() < 4 ==> r.1 == (WriteLog::BadLength { len: payload@.len() as usize }),
        r.1 == spec_write_log(payload@),
{
    let log = match decode_payload(payload) {
        Some(value) => WriteLog::Received { value },
        None => WriteLog::BadLength { len: payload.len() },
    };
    (ResponseKind::Success, log)
}

/// Takes one step of the peripheral duty cycle on an observed outcome or a
/// delivered event, returning the next state and what to do.
pub fn peripheral_step(s: PeripheralState, e: &PeripheralEvent) -> (r: (
    PeripheralState,
    PeripheralEffect,
))
    ensures
        r == spec_peripheral_step(s, *e),
{
    match (s, e) {
        (PeripheralState::AwaitPowerOn, PeripheralEvent::PowerChecked { on }) => (
            if *on {
                PeripheralState::RegisterService
            } else {
                PeripheralState::AwaitPowerOn
            },
            PeripheralEffect::Quiet,
        ),
        (PeripheralState::RegisterService, PeripheralEvent::ServiceRegistered { ok }) => (
            if *ok {
                PeripheralState::StartAdvertising
            } else {
                PeripheralState::Failed
            },
            PeripheralEffect::Quiet,
        ),
        (PeripheralState::StartAdvertising, PeripheralEvent::AdvertisingStarted { ok }) => (
            if *ok {
                PeripheralState::EventLoop
            } else {
                PeripheralState::Failed
            },
            PeripheralEffect::Quiet,
        ),
        (PeripheralState::EventLoop, PeripheralEvent::WriteRequested { payload }) => {
            let (response, log) = handle_write(payload);
            (PeripheralState::EventLoop, PeripheralEffect::Respond { response, log })
        },
        (PeripheralState::EventLoop, PeripheralEvent::OtherDelivered) => (
            PeripheralState::EventLoop,
            PeripheralEffect::NoteUnhandled,
        ),
        (PeripheralState::EventLoop, PeripheralEvent::ChannelClosed) => (
            PeripheralState::Done,
            PeripheralEffect::Quiet,
        ),
        _ => (s, PeripheralEffect::Quiet),
    }
}

/// Whether the duty cycle ended cleanly: the channel closed and the cycle
/// returns success.
pub fn peripheral_done(s: &PeripheralState) -> (r: bool)
    ensures
        r == (s is Done),
{
    match s {
        PeripheralState::Done => true,
        _ => false,
    }
}

/// Whether the duty cycle has met an environment-fatal error.
pub fn peripheral_failed(s: &PeripheralState) -> (r: bool)
    ensures
        r == (s is Failed),
{
    match s {
        PeripheralState::Failed => true,
        _ => false,
    }
}

/// The fixed delay slept after the transition on `e` in state `s`: 5 s
/// between power polls, none otherwise.
pub open spec fn spec_peripheral_retry_delay(s: PeripheralState, e: PeripheralEvent) -> u64 {
    match (s, e) {
        (PeripheralState::AwaitPowerOn, PeripheralEvent::PowerChecked { on }) => if on {
            0
        } else {
            POWER_POLL_DELAY_MS
        },
        _ => 0,
    }
}

/// The fixed retry delay slept after taking the step on `e` in state `s`.
pub fn peripheral_retry_delay_ms(s: &PeripheralState, e: &PeripheralEvent) -> (r: u64)
    ensures
        r == spec_peripheral_retry_delay(*s, *e),
{
    match (s, e) {
        (PeripheralState::AwaitPowerOn, PeripheralEvent::PowerChecked { on }) => if *on {
            0
        } else {
            POWER_POLL_DELAY_MS
        },
        _ => 0,
    }
}

/// The state after taking every step of `evs` in order from `s`.
pub open spec fn spec_peripheral_run(s: PeripheralState, evs: Seq<PeripheralEvent>) -> PeripheralState
    decreases evs.len(),
{
    if evs.len() == 0 {
        s
    } else {
        spec_peripheral_run(spec_peripheral_step(s, evs[0]).0, evs.skip(1))
    }
}

/// The effects demanded by taking every step of `evs` in order from `s`,
/// one per event.
pub open spec fn spec_peripheral_effects(s: PeripheralState, evs: Seq<PeripheralEvent>) -> Seq<
    PeripheralEffect,
>
    decreases evs.len(),
{
    if evs.len() == 0 {
        Seq::empty()
    } else {
        seq![spec_peripheral_step(s, evs[0]).1] + spec_peripheral_effects(
            spec_peripheral_step(s, evs[0]).0,
            evs.skip(1),
        )
    }
}

/// Whether `e` is traffic delivered inside the event loop: a write request
/// or an event of some other kind.
pub open spec fn spec_is_loop_traffic(e: PeripheralEvent) -> bool {
    e is WriteRequested || e is OtherDelivered
}

/// Every write request receives exactly one acknowledgment, and that
/// acknowledgment is success: over any traffic the event loop consumes, the
/// step on the `i`-th event demands a response exactly when that event is a
/// write request — one effect per event, so no request is answered twice —
/// and every demanded response is success. The loop itself never leaves the
/// event-consuming state on traffic.
pub proof fn lemma_one_success_ack_per_request(evs: Seq<PeripheralEvent>)
    requires
        forall|i: int| 0 <= i < evs.len() ==> spec_is_loop_traffic(evs[i]),
    ensures
        spec_peripheral_run(PeripheralState::EventLoop, evs) == PeripheralState::EventLoop,
        spec_peripheral_effects(PeripheralState::EventLoop, evs).len() == evs.len(),
        forall|i: int|
            0 <= i < evs.len() ==> (#[trigger] spec_peripheral_effects(
                PeripheralState::EventLoop,
                evs,
            )[i] is Respond <==> evs[i] is WriteRequested),
        forall|i: int|
            0 <= i < evs.len() ==> (#[trigger] spec_peripheral_effects(
                PeripheralState::EventLoop,
                evs,
            )[i] matches PeripheralEffect::Respond { response, .. } ==> response
                == ResponseKind::Success),
    decreases evs.len(),
{
    let el = PeripheralState::EventLoop;
    if evs.len() > 0 {
        assert(spec_is_loop_traffic(evs[0]));
        assert(spec_peripheral_step(el, evs[0]).0 == el);
        assert(forall|i: int| 0 <= i < evs.skip(1).len() ==> evs.skip(1)[i] == evs[i + 1]);
        lemma_one_success_ack_per_request(evs.skip(1));
        let effs = spec_peripheral_effects(el, evs);
        let rest = spec_peripheral_effects(el, evs.skip(1));
        assert(effs == seq![spec_peripheral_step(el, evs[0]).1] + rest);
        assert(effs[0] == spec_peripheral_step(el, evs[0]).1);
        assert(forall|i: int| 1 <= i < evs.len() ==> effs[i] == rest[i - 1]);
        assert(evs[0] is WriteRequested ==> (effs[0] matches PeripheralEffect::Respond {
            response,
            ..
        } && response == ResponseKind::Success));
        assert(evs[0] is OtherDelivered ==> effs[0] == PeripheralEffect::NoteUnhandled);
    }
}

/// Channel closure ends the duty cycle cleanly: the step on closure leaves
/// the event loop for the success state, demanding nothing further.
pub proof fn lemma_channel_closure_ends_cleanly()
    ensures
        spec_peripheral_step(PeripheralState::EventLoop, PeripheralEvent::ChannelClosed) == (
            PeripheralState::Done,
            PeripheralEffect::Quiet,
        ),
{
}

} // verus!
