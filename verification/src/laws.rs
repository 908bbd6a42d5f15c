use vstd::prelude::*;

use crate::asset::AssetId;
use crate::machine::StateView;

verus! {

/// A successful deposit creates the caller's lock: immediately afterwards
/// the caller holds an active lock and its eligible time is exactly the
/// deposit time plus the configured lock duration.
pub proof fn lemma_deposit_creates_lock(
    s: StateView,
    caller: u64,
    token: AssetId,
    amount: u128,
    now: u64,
)
    requires
        s.wf(),
        s.ping_allowed(caller, token, amount),
        now + s.duration <= u64::MAX,
    ensures
        s.after_ping(caller, now).has_lock(caller),
        s.after_ping(caller, now).eligible_time(caller) == now + s.duration,
{
}

/// Failure of a repeated deposit: after a successful deposit the caller
/// holds a lock, so a second deposit by the same party, with no
/// withdrawal in between, fails its own precondition. By `ping`'s
/// contract that second call returns `AlreadyPinged` and leaves the
/// state exactly as it was after the first.
pub proof fn lemma_no_second_deposit(
    s: StateView,
    caller: u64,
    token: AssetId,
    amount: u128,
    now: u64,
    token2: AssetId,
    amount2: u128,
)
    requires
        s.ping_allowed(caller, token, amount),
    ensures
        s.after_ping(caller, now).has_lock(caller),
        !s.after_ping(caller, now).ping_allowed(caller, token2, amount2),
{
}

/// Round trip: a deposit at time `t` followed by a withdrawal at any
/// time at or past the eligible time succeeds, owes the caller exactly
/// the configured amount of the configured asset, and clears the lock —
/// after which no further withdrawal is allowed at any time.
pub proof fn lemma_round_trip(
    s: StateView,
    caller: u64,
    token: AssetId,
    amount: u128,
    t: u64,
    now: u64,
)
    requires
        s.wf(),
        s.ping_allowed(caller, token, amount),
        t + s.duration <= u64::MAX,
        now >= t + s.duration,
    ensures
        s.after_ping(caller, t).pong_allowed(caller, now),
        s.after_ping(caller, t).asset == s.asset,
        s.after_ping(caller, t).amount == s.amount,
        !s.after_ping(caller, t).after_pong(caller).has_lock(caller),
        forall|later: u64|
            !(#[trigger] s.after_ping(caller, t).after_pong(caller).pong_allowed(caller, later)),
{
}

/// Extension additivity: extending an active lock by `additional_seconds`
/// moves the eligible time forward by exactly that many seconds, and the
/// lock stays active.
pub proof fn lemma_extension_additivity(s: StateView, caller: u64, additional_seconds: u64)
    requires
        s.wf(),
        s.extend_allowed(caller, additional_seconds),
        s.ledger[caller] + additional_seconds + s.duration <= u64::MAX,
    ensures
        s.after_extend(caller, additional_seconds).has_lock(caller),
        s.after_extend(caller, additional_seconds).eligible_time(caller) == s.eligible_time(caller)
            + additional_seconds,
        s.after_extend(caller, additional_seconds).wf(),
{
    let s2 = s.after_extend(caller, additional_seconds);
    assert forall|p: u64| s2.ledger.dom().contains(p)
        implies #[trigger] s2.ledger[p] + s2.duration <= u64::MAX by {
        if p != caller {
            assert(s.ledger[p] + s.duration <= u64::MAX);
        }
    }
}

} // verus!
