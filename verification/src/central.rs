//! The central role's duty cycle: a resilient retry state machine that
//! acquires an adapter, waits for power, scans, finds one target peer by
//! address, connects, resolves the target characteristic, and then pushes an
//! incrementing counter in an unbounded write loop.
//!
//! The machine is a pure step function from state and observed outcome to
//! next state; the surrounding runtime performs the radio operations and
//! feeds their outcomes back in. Transient failures (a failed connect, a
//! missing characteristic, a failed write) self-heal by retry; stack-level
//! failures (adapter acquisition, scan start, service discovery) are fatal.

use vstd::prelude::*;

use crate::protocol::{
    CHARACTERISTIC_RETRY_DELAY_MS, CONNECT_RETRY_DELAY_MS, PEER_SEARCH_DELAY_MS,
    POWER_POLL_DELAY_MS,
};

verus! {

/// Where the central duty cycle stands.
#[derive(Clone, Copy, Debug, PartialEq, Eq, Structural)]
pub enum CentralState {
    /// Obtain the single local adapter; fatal if none exists.
    AcquireAdapter,
    /// Poll the adapter power state until it is on; never fails.
    AwaitPowerOn,
    /// Begin scanning filtered to the service identifier; fatal on failure.
    StartScan,
    /// Query the visible peer list for the target address until found.
    DiscoverPeer,
    /// A peer with the target address is at hand; try to connect to it.
    Connect,
    /// Request service discovery on the live connection; fatal on failure.
    ResolveServices,
    /// Search the resolved characteristics for the target identifier.
    ResolveCharacteristic,
    /// Connected and resolved: write `counter`, then advance it, forever.
    WriteLoop { counter: i32 },
    /// An environment-fatal error was met; the duty cycle is over.
    Failed,
}

/// The outcome of the radio operation that the current state called for.
#[derive(Clone, Copy, Debug, PartialEq, Eq, Structural)]
pub enum CentralEvent {
    /// Adapter enumeration finished; `ok` says whether one was obtained.
    AdapterAcquired { ok: bool },
    /// The adapter power state was polled; `on` says whether it is powered.
    PowerChecked { on: bool },
    /// The filtered scan was started, or the stack refused it.
    ScanStarted { ok: bool },
    /// The peer list was queried; `found` says whether the target address
    /// appeared in it.
    PeerSearched { found: bool },
    /// The connection attempt finished.
    Connected { ok: bool },
    /// The service discovery call finished.
    ServicesDiscovered { ok: bool },
    /// The characteristic list was searched for the target identifier.
    CharacteristicSearched { found: bool },
    /// One write of the current counter finished; `ok` records whether the
    /// peer acknowledged it. The counter advances either way.
    WroteCounter { ok: bool },
}

/// What the runtime must do next in a given state.
#[derive(Clone, Copy, Debug, PartialEq, Eq, Structural)]
pub enum CentralAction {
    /// Enumerate adapters and take the first.
    AcquireAdapter,
    /// Query the adapter power state.
    CheckPower,
    /// Start a scan filtered to the service identifier.
    StartScan,
    /// List the visible peers and search for the target address.
    SearchPeer,
    /// Connect to the peer found by the last search.
    ConnectPeer,
    /// Request service discovery on the connection.
    DiscoverServices,
    /// Search the resolved characteristics for the target identifier.
    SearchCharacteristic,
    /// Write the 4-byte little-endian encoding of `counter` with response,
    /// then sleep a random delay and advance the counter.
    WriteCounter { counter: i32 },
    /// Surface the fatal error and terminate the process abnormally.
    ReportFatal,
}

/// The successor of a counter value, wrapping past `i32::MAX` to `i32::MIN`
/// (two's-complement wraparound is the chosen overflow behaviour).
pub open spec fn spec_wrapping_inc(c: i32) -> i32 {
    if c == i32::MAX {
        i32::MIN
    } else {
        (c + 1) as i32
    }
}

/// Advances a counter value by one, wrapping on overflow.
pub fn wrapping_inc(c: i32) -> (r: i32)
    ensures
        r == spec_wrapping_inc(c),
{
    if c == i32::MAX {
        i32::MIN
    } else {
        c + 1
    }
}

/// The transition relation of the central duty cycle.
///
/// Transient failures lead back to peer discovery (a failed connect or a
/// missing characteristic re-queries the peer list rather than reusing a
/// possibly stale record); stack-level failures lead to `Failed`; a write
/// outcome, acknowledged or not, advances the counter and stays in the
/// write loop. An event that does not belong to the current state leaves
/// the state unchanged.
pub open spec fn spec_central_step(s: CentralState, e: CentralEvent) -> CentralState {
    match (s, e) {
        (CentralState::AcquireAdapter, CentralEvent::AdapterAcquired { ok }) => if ok {
            CentralState::AwaitPowerOn
        } else {
            CentralState::Failed
        },
        (CentralState::AwaitPowerOn, CentralEvent::PowerChecked { on }) => if on {
            CentralState::StartScan
        } else {
            CentralState::AwaitPowerOn
        },
        (CentralState::StartScan, CentralEvent::ScanStarted { ok }) => if ok {
            CentralState::DiscoverPeer
        } else {
            CentralState::Failed
        },
        (CentralState::DiscoverPeer, CentralEvent::PeerSearched { found }) => if found {
            CentralState::Connect
        } else {
            CentralState::DiscoverPeer
        },
        (CentralState::Connect, CentralEvent::Connected { ok }) => if ok {
            CentralState::ResolveServices
        } else {
            CentralState::DiscoverPeer
        },
        (CentralState::ResolveServices, CentralEvent::ServicesDiscovered { ok }) => if ok {
            CentralState::ResolveCharacteristic
        } else {
            CentralState::Failed
        },
        (CentralState::ResolveCharacteristic, CentralEvent::CharacteristicSearched {
            found,
        }) => if found {
            CentralState::WriteLoop { counter: 0 }
        } else {
            CentralState::DiscoverPeer
        },
        (CentralState::WriteLoop { counter }, CentralEvent::WroteCounter { .. }) => {
            CentralState::WriteLoop { counter: spec_wrapping_inc(counter) }
        },
        _ => s,
    }
}

/// The state in which the central duty cycle begins.
pub fn central_init() -> (s: CentralState)
    ensures
        s == CentralState::AcquireAdapter,
{
    CentralState::AcquireAdapter
}

/// Takes one step of the central duty cycle on an observed outcome.
pub fn central_step(s: CentralState, e: CentralEvent) -> (r: CentralState)
    ensures
        r == spec_central_step(s, e),
{
    match (s, e) {
        (CentralState::AcquireAdapter, CentralEvent::AdapterAcquired { ok }) => if ok {
            CentralState::AwaitPowerOn
        } else {
            CentralState::Failed
        },
        (CentralState::AwaitPowerOn, CentralEvent::PowerChecked { on }) => if on {
            CentralState::StartScan
        } else {
            CentralState::AwaitPowerOn
        },
        (CentralState::StartScan, CentralEvent::ScanStarted { ok }) => if ok {
            CentralState::DiscoverPeer
        } else {
            CentralState::Failed
        },
        (CentralState::DiscoverPeer, CentralEvent::PeerSearched { found }) => if found {
            CentralState::Connect
        } else {
            CentralState::DiscoverPeer
        },
        (CentralState::Connect, CentralEvent::Connected { ok }) => if ok {
            CentralState::ResolveServices
        } else {
            CentralState::DiscoverPeer
        },
        (CentralState::ResolveServices, CentralEvent::ServicesDiscovered { ok }) => if ok {
            CentralState::ResolveCharacteristic
        } else {
            CentralState::Failed
        },
        (CentralState::ResolveCharacteristic, CentralEvent::CharacteristicSearched {
            found,
        }) => if found {
            CentralState::WriteLoop { counter: 0 }
        } else {
            CentralState::DiscoverPeer
        },
        (CentralState::WriteLoop { counter }, CentralEvent::WroteCounter { .. }) => {
            CentralState::WriteLoop { counter: wrapping_inc(counter) }
        },
        _ => s,
    }
}

/// The radio operation each state calls for.
pub open spec fn spec_central_action(s: CentralState) -> CentralAction {
    match s {
        CentralState::AcquireAdapter => CentralAction::AcquireAdapter,
        CentralState::AwaitPowerOn => CentralAction::CheckPower,
        CentralState::StartScan => CentralAction::StartScan,
        CentralState::DiscoverPeer => CentralAction::SearchPeer,
        CentralState::Connect => CentralAction::ConnectPeer,
        CentralState::ResolveServices => CentralAction::DiscoverServices,
        CentralState::ResolveCharacteristic => CentralAction::SearchCharacteristic,
        CentralState::WriteLoop { counter } => CentralAction::WriteCounter { counter },
        CentralState::Failed => CentralAction::ReportFatal,
    }
}

/// Says what the runtime must do next in state `s`.
pub fn central_action(s: &CentralState) -> (r: CentralAction)
    ensures
        r == spec_central_action(*s),
{
    match s {
        CentralState::AcquireAdapter => CentralAction::AcquireAdapter,
        CentralState::AwaitPowerOn => CentralAction::CheckPower,
        CentralState::StartScan => CentralAction::StartScan,
        CentralState::DiscoverPeer => CentralAction::SearchPeer,
        CentralState::Connect => CentralAction::ConnectPeer,
        CentralState::ResolveServices => CentralAction::DiscoverServices,
        CentralState::ResolveCharacteristic => CentralAction::SearchCharacteristic,
        CentralState::WriteLoop { counter } => CentralAction::WriteCounter { counter: *counter },
        CentralState::Failed => CentralAction::ReportFatal,
    }
}

/// Whether the duty cycle has met an environment-fatal error.
pub fn central_failed(s: &CentralState) -> (r: bool)
    ensures
        r == (s is Failed),
{
    match s {
        CentralState::Failed => true,
        _ => false,
    }
}

/// The fixed delay, in milliseconds, slept after the transition on `e` in
/// state `s` and before the next operation: 5 s between power polls, 2 s
/// between peer-list queries, 5 s after a failed connect, 5 s after a
/// missing characteristic, none otherwise. The randomized write-loop delay
/// is drawn separately.
pub open spec fn spec_central_retry_delay(s: CentralState, e: CentralEvent) -> u64 {
    match (s, e) {
        (CentralState::AwaitPowerOn, CentralEvent::PowerChecked { on }) => if on {
            0
        } else {
            POWER_POLL_DELAY_MS
        },
        (CentralState::DiscoverPeer, CentralEvent::PeerSearched { found }) => if found {
            0
        } else {
            PEER_SEARCH_DELAY_MS
        },
        (CentralState::Connect, CentralEvent::Connected { ok }) => if ok {
            0
        } else {
            CONNECT_RETRY_DELAY_MS
        },
        (CentralState::ResolveCharacteristic, CentralEvent::CharacteristicSearched {
            found,
        }) => if found {
            0
        } else {
            CHARACTERISTIC_RETRY_DELAY_MS
        },
        _ => 0,
    }
}

/// The fixed retry delay slept after taking the step on `e` in state `s`.
pub fn central_retry_delay_ms(s: &CentralState, e: &CentralEvent) -> (r: u64)
    ensures
        r == spec_central_retry_delay(*s, *e),
{
    match (s, e) {
        (CentralState::AwaitPowerOn, CentralEvent::PowerChecked { on }) => if *on {
            0
        } else {
            POWER_POLL_DELAY_MS
        },
        (CentralState::DiscoverPeer, CentralEvent::PeerSearched { found }) => if *found {
            0
        } else {
            PEER_SEARCH_DELAY_MS
        },
        (CentralState::Connect, CentralEvent::Connected { ok }) => if *ok {
            0
        } else {
            CONNECT_RETRY_DELAY_MS
        },
        (CentralState::ResolveCharacteristic, CentralEvent::CharacteristicSearched {
            found,
        }) => if *found {
            0
        } else {
            CHARACTERISTIC_RETRY_DELAY_MS
        },
        _ => 0,
    }
}

/// The state after taking every step of `evs` in order from `s`.
pub open spec fn spec_central_run(s: CentralState, evs: Seq<CentralEvent>) -> CentralState
    decreases evs.len(),
{
    if evs.len() == 0 {
        s
    } else {
        spec_central_run(spec_central_step(s, evs[0]), evs.skip(1))
    }
}

/// Running over a concatenation runs over each part in turn.
pub proof fn lemma_central_run_append(s: CentralState, a: Seq<CentralEvent>, b: Seq<CentralEvent>)
    ensures
        spec_central_run(s, a + b) == spec_central_run(spec_central_run(s, a), b),
    decreases a.len(),
{
    if a.len() == 0 {
        assert(a + b =~= b);
    } else {
        assert((a + b).skip(1) =~= a.skip(1) + b);
        lemma_central_run_append(spec_central_step(s, a[0]), a.skip(1), b);
    }
}

/// Running over a single event is one step.
pub proof fn lemma_central_run_one(s: CentralState, e: CentralEvent)
    ensures
        spec_central_run(s, seq![e]) == spec_central_step(s, e),
{
    let es = seq![e];
    assert(es.skip(1) =~= Seq::<CentralEvent>::empty());
    assert(spec_central_run(spec_central_step(s, e), es.skip(1)) == spec_central_step(s, e));
    assert(es[0] == e);
}

/// The two observed outcomes of one failed connection attempt: the target
/// appears in the peer list, then the connect fails.
pub open spec fn spec_failed_connect_attempt() -> Seq<CentralEvent> {
    seq![
        CentralEvent::PeerSearched { found: true },
        CentralEvent::Connected { ok: false },
    ]
}

/// `n` failed connection attempts in a row.
pub open spec fn spec_failed_connect_attempts(n: nat) -> Seq<CentralEvent>
    decreases n,
{
    if n == 0 {
        Seq::empty()
    } else {
        spec_failed_connect_attempt() + spec_failed_connect_attempts((n - 1) as nat)
    }
}

/// The observed outcomes of one fully successful attach: the peer is found,
/// connects, service discovery succeeds, and the characteristic is found.
pub open spec fn spec_successful_attach() -> Seq<CentralEvent> {
    seq![
        CentralEvent::PeerSearched { found: true },
        CentralEvent::Connected { ok: true },
        CentralEvent::ServicesDiscovered { ok: true },
        CentralEvent::CharacteristicSearched { found: true },
    ]
}

/// After a failed connection attempt the duty cycle stands in peer
/// discovery again: the peer list is re-queried, a possibly stale peer
/// record is never reused.
pub proof fn lemma_failed_connect_rediscovers()
    ensures
        spec_central_step(CentralState::Connect, CentralEvent::Connected { ok: false })
            == CentralState::DiscoverPeer,
{
}

/// When the target characteristic is not found, the duty cycle restarts
/// from peer discovery — a fresh connection cycle — not from a retry of the
/// characteristic lookup on the same connection.
pub proof fn lemma_missing_characteristic_rediscovers()
    ensures
        spec_central_step(
            CentralState::ResolveCharacteristic,
            CentralEvent::CharacteristicSearched { found: false },
        ) == CentralState::DiscoverPeer,
{
}

/// For any number of failed connection attempts followed by one successful
/// attach, the duty cycle reaches the write loop with the counter at zero;
/// and after every prefix of failed attempts it stands in peer discovery,
/// so each attempt begins with a fresh query of the peer list.
pub proof fn lemma_connect_failures_then_success(n: nat)
    ensures
        spec_central_run(CentralState::DiscoverPeer, spec_failed_connect_attempts(n))
            == CentralState::DiscoverPeer,
        spec_central_run(
            CentralState::DiscoverPeer,
            spec_failed_connect_attempts(n) + spec_successful_attach(),
        ) == (CentralState::WriteLoop { counter: 0 }),
    decreases n,
{
    let discover = CentralState::DiscoverPeer;
    if n == 0 {
        assert(spec_failed_connect_attempts(0) + spec_successful_attach()
            =~= spec_successful_attach());
        lemma_central_run_attach(discover);
    } else {
        let attempt = spec_failed_connect_attempt();
        let rest = spec_failed_connect_attempts((n - 1) as nat);
        lemma_central_run_append(discover, attempt, rest);
        assert(attempt.skip(1) =~= seq![CentralEvent::Connected { ok: false }]);
        lemma_central_run_one(CentralState::Connect, CentralEvent::Connected { ok: false });
        assert(spec_central_run(discover, attempt) == discover);
        lemma_connect_failures_then_success((n - 1) as nat);
        assert(spec_failed_connect_attempts(n) + spec_successful_attach()
            =~= attempt + (rest + spec_successful_attach()));
        lemma_central_run_append(discover, attempt, rest + spec_successful_attach());
    }
}

/// From peer discovery, one successful attach reaches the write loop with
/// the counter at zero.
pub proof fn lemma_central_run_attach(s: CentralState)
    requires
        s == CentralState::DiscoverPeer,
    ensures
        spec_central_run(s, spec_successful_attach()) == (CentralState::WriteLoop { counter: 0 }),
{
    let attach = spec_successful_attach();
    let t1 = attach.skip(1);
    let t2 = t1.skip(1);
    let t3 = t2.skip(1);
    let t4 = t3.skip(1);
    let s1 = CentralState::Connect;
    let s2 = CentralState::ResolveServices;
    let s3 = CentralState::ResolveCharacteristic;
    let s4 = CentralState::WriteLoop { counter: 0 };
    assert(attach[0] == (CentralEvent::PeerSearched { found: true }));
    assert(t1[0] == (CentralEvent::Connected { ok: true }));
    assert(t2[0] == (CentralEvent::ServicesDiscovered { ok: true }));
    assert(t3[0] == (CentralEvent::CharacteristicSearched { found: true }));
    assert(t4 =~= Seq::<CentralEvent>::empty());
    assert(spec_central_run(s4, t4) == s4);
    assert(spec_central_run(s3, t3) == spec_central_run(s4, t4));
    assert(spec_central_run(s2, t2) == spec_central_run(s3, t3));
    assert(spec_central_run(s1, t1) == spec_central_run(s2, t2));
    assert(spec_central_run(s, attach) == spec_central_run(s1, t1));
}

/// While the target address never appears in the peer list, the duty cycle
/// stays in peer discovery indefinitely, without error.
pub proof fn lemma_absent_peer_keeps_discovering(evs: Seq<CentralEvent>)
    requires
        forall|i: int|
            0 <= i < evs.len() ==> evs[i] == (CentralEvent::PeerSearched { found: false }),
    ensures
        spec_central_run(CentralState::DiscoverPeer, evs) == CentralState::DiscoverPeer,
    decreases evs.len(),
{
    if evs.len() > 0 {
        assert(evs[0] == (CentralEvent::PeerSearched { found: false }));
        assert(forall|i: int|
            0 <= i < evs.skip(1).len() ==> evs.skip(1)[i] == evs[i + 1]);
        lemma_absent_peer_keeps_discovering(evs.skip(1));
    }
}

/// The counter value after `k` writes starting from `c`, each write
/// advancing it by one with wraparound.
pub open spec fn spec_counter_after(c: i32, k: nat) -> i32
    decreases k,
{
    if k == 0 {
        c
    } else {
        spec_counter_after(spec_wrapping_inc(c), (k - 1) as nat)
    }
}

/// Running the write loop over any sequence of write outcomes — successes
/// and failures alike — leaves it in the write loop with the counter
/// advanced once per write.
pub proof fn lemma_write_loop_run(c: i32, evs: Seq<CentralEvent>)
    requires
        forall|i: int| 0 <= i < evs.len() ==> evs[i] is WroteCounter,
    ensures
        spec_central_run(CentralState::WriteLoop { counter: c }, evs)
            == (CentralState::WriteLoop { counter: spec_counter_after(c, evs.len()) }),
    decreases evs.len(),
{
    if evs.len() > 0 {
        assert(evs[0] is WroteCounter);
        assert(forall|i: int|
            0 <= i < evs.skip(1).len() ==> evs.skip(1)[i] == evs[i + 1]);
        lemma_write_loop_run(spec_wrapping_inc(c), evs.skip(1));
    }
}

/// The counter observed across `N` consecutive writes is the arithmetic
/// sequence `c, c + 1, …, c + N − 1`, with no gaps or reorderings,
/// regardless of interleaved write failures: before the `k`-th write
/// outcome the loop holds counter `spec_counter_after(c, k)`, and while no
/// wrap occurs that value is exactly `c + k`.
pub proof fn lemma_write_loop_counter_sequence(c: i32, evs: Seq<CentralEvent>)
    requires
        forall|i: int| 0 <= i < evs.len() ==> evs[i] is WroteCounter,
    ensures
        forall|k: int|
            0 <= k <= evs.len() ==> spec_central_run(
                CentralState::WriteLoop { counter: c },
                evs.take(k),
            ) == (CentralState::WriteLoop { counter: spec_counter_after(c, k as nat) }),
{
    assert forall|k: int| 0 <= k <= evs.len() implies spec_central_run(
        CentralState::WriteLoop { counter: c },
        evs.take(k),
    ) == (CentralState::WriteLoop { counter: spec_counter_after(c, k as nat) }) by {
        assert(forall|i: int| 0 <= i < evs.take(k).len() ==> evs.take(k)[i] == evs[i]);
        lemma_write_loop_run(c, evs.take(k));
    }
}

/// While the counter stays below `i32::MAX`, advancing it `k` times from
/// `c` yields exactly `c + k`: the written values form the arithmetic
/// sequence with step one.
pub proof fn lemma_counter_after_no_wrap(c: i32, k: nat)
    requires
        c + k <= i32::MAX,
    ensures
        spec_counter_after(c, k) == c + k,
    decreases k,
{
    if k > 0 {
        lemma_counter_after_no_wrap(spec_wrapping_inc(c), (k - 1) as nat);
    }
}

} // verus!
