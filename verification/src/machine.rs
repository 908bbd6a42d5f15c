use vstd::prelude::*;

use crate::asset::AssetId;
use crate::errors::PingPongError;
use crate::ledger::Ledger;

verus! {

/// The abstract state of the mechanism: what the contracts of every
/// operation speak about.
#[verifier::ext_equal]
pub ghost struct StateView {
    /// The asset deposits must be paid in.
    pub asset: AssetId,
    /// The exact amount each deposit must attach.
    pub amount: u128,
    /// The lock duration, in seconds.
    pub duration: u64,
    /// Per party: the logical time of its active deposit.
    pub ledger: Map<u64, u64>,
    /// Whether the lifecycle gate is closed.
    pub paused: bool,
    /// The one identity allowed to administer the mechanism.
    pub owner: u64,
}

impl StateView {
    /// Well-formedness: the configuration invariant (both parameters
    /// positive) and every eligible time representable as a timestamp.
    pub open spec fn wf(self) -> bool {
        &&& self.amount > 0
        &&& self.duration > 0
        &&& forall|p: u64| self.ledger.dom().contains(p)
            ==> #[trigger] self.ledger[p] + self.duration <= u64::MAX
    }

    /// Whether `party` holds an active lock.
    pub open spec fn has_lock(self, party: u64) -> bool {
        self.ledger.dom().contains(party)
    }

    /// The earliest logical time at which `party` may withdraw; `0` when
    /// it holds no lock.
    pub open spec fn eligible_time(self, party: u64) -> int {
        if self.has_lock(party) {
            self.ledger[party] + self.duration
        } else {
            0
        }
    }

    /// The state set up by a successful initialization.
    pub open spec fn initial(
        amount: u128,
        duration: u64,
        opt_asset: Option<AssetId>,
        caller: u64,
    ) -> StateView {
        StateView {
            asset: match opt_asset {
                Some(a) => a,
                None => AssetId::Native,
            },
            amount: amount,
            duration: duration,
            ledger: Map::empty(),
            paused: false,
            owner: caller,
        }
    }

    /// This state with the two tunable parameters replaced.
    pub open spec fn retuned(self, amount: u128, duration: u64) -> StateView {
        StateView { amount: amount, duration: duration, ..self }
    }

    /// This state with the lifecycle gate set.
    pub open spec fn with_paused(self, paused: bool) -> StateView {
        StateView { paused: paused, ..self }
    }

    /// Whether a deposit by `caller` paying `amount` of `token` passes
    /// every precondition.
    pub open spec fn ping_allowed(self, caller: u64, token: AssetId, amount: u128) -> bool {
        &&& !self.paused
        &&& token == self.asset
        &&& amount == self.amount
        &&& !self.has_lock(caller)
    }

    /// The state after a successful deposit by `caller` at time `now`.
    pub open spec fn after_ping(self, caller: u64, now: u64) -> StateView {
        StateView { ledger: self.ledger.insert(caller, now), ..self }
    }

    /// Whether a withdrawal by `caller` at time `now` passes every
    /// precondition.
    pub open spec fn pong_allowed(self, caller: u64, now: u64) -> bool {
        &&& !self.paused
        &&& self.has_lock(caller)
        &&& now >= self.eligible_time(caller)
    }

    /// The state after a successful withdrawal by `caller`.
    pub open spec fn after_pong(self, caller: u64) -> StateView {
        StateView { ledger: self.ledger.remove(caller), ..self }
    }

    /// Whether a lock extension by `additional_seconds` for `caller`
    /// passes every precondition.
    pub open spec fn extend_allowed(self, caller: u64, additional_seconds: u64) -> bool {
        &&& !self.paused
        &&& self.has_lock(caller)
        &&& additional_seconds > 0
    }

    /// The state after `caller` extends its lock by `additional_seconds`.
    pub open spec fn after_extend(self, caller: u64, additional_seconds: u64) -> StateView {
        StateView {
            ledger: self.ledger.insert(
                caller,
                (self.ledger[caller] + additional_seconds) as u64,
            ),
            ..self
        }
    }
}

/// What a successful withdrawal owes the caller: the host boundary must
/// transfer `amount` of `asset` to the withdrawing party, and only after
/// this crate has already cleared the party's ledger entry.
#[derive(Clone, Copy, Debug, PartialEq, Eq, Structural)]
pub struct Payout {
    /// The asset to transfer.
    pub asset: AssetId,
    /// The amount to transfer.
    pub amount: u128,
}

/// The ping-pong mechanism itself: configuration, owner, lifecycle gate
/// and the party ledger, with every operation of the protocol.
pub struct PingPong {
    accepted_payment_token_id: AssetId,
    ping_amount: u128,
    duration_in_seconds: u64,
    user_ping_timestamps: Ledger,
    paused: bool,
    owner: u64,
}

impl View for PingPong {
    type V = StateView;

    closed spec fn view(&self) -> StateView {
        StateView {
            asset: self.accepted_payment_token_id,
            amount: self.ping_amount,
            duration: self.duration_in_seconds,
            ledger: self.user_ping_timestamps@,
            paused: self.paused,
            owner: self.owner,
        }
    }
}

impl PingPong {
    /// Representation invariant of the ledger vector.
    pub closed spec fn inv(self) -> bool {
        self.user_ping_timestamps.inv()
    }

    /// Set up the mechanism: record the two parameters (both must be
    /// positive), the accepted asset (the native asset when omitted),
    /// the caller as owner, and leave the mechanism unpaused.
    pub fn init(
        ping_amount: u128,
        duration_in_seconds: u64,
        opt_token_id: Option<AssetId>,
        caller: u64,
    ) -> (r: Result<PingPong, PingPongError>)
        ensures
            ping_amount == 0 ==> r == Err::<PingPong, PingPongError>(
                PingPongError::PingAmountCannotBeZero,
            ),
            ping_amount > 0 && duration_in_seconds == 0 ==> r == Err::<PingPong, PingPongError>(
                PingPongError::DurationCannotBeZero,
            ),
            ping_amount > 0 && duration_in_seconds > 0 ==> (r matches Ok(m)
                && m.inv()
                && m@ == StateView::initial(ping_amount, duration_in_seconds, opt_token_id, caller)
                && m@.wf()),
    {
        if ping_amount == 0 {
            return Err(PingPongError::PingAmountCannotBeZero);
        }
        if duration_in_seconds == 0 {
            return Err(PingPongError::DurationCannotBeZero);
        }
        let token_id = match opt_token_id {
            Some(t) => t,
            None => AssetId::Native,
        };
        let m = PingPong {
            accepted_payment_token_id: token_id,
            ping_amount: ping_amount,
            duration_in_seconds: duration_in_seconds,
            user_ping_timestamps: Ledger::new(),
            paused: false,
            owner: caller,
        };
        proof {
            assert(m@ =~= StateView::initial(
                ping_amount,
                duration_in_seconds,
                opt_token_id,
                caller,
            ));
        }
        Ok(m)
    }

    /// Owner-only retuning of the two mutable parameters; the accepted
    /// asset is immutable. The checks run in the same order as at
    /// initialization.
    pub fn upgrade(
        &mut self,
        caller: u64,
        ping_amount: u128,
        duration_in_seconds: u64,
    ) -> (r: Result<(), PingPongError>)
        requires
            old(self).inv(),
            old(self)@.wf(),
            (caller == old(self)@.owner && ping_amount > 0 && duration_in_seconds > 0)
                ==> forall|p: u64| old(self)@.ledger.dom().contains(p)
                    ==> #[trigger] old(self)@.ledger[p] + duration_in_seconds <= u64::MAX,
        ensures
            final(self).inv(),
            final(self)@.wf(),
            caller != old(self)@.owner ==> r == Err::<(), PingPongError>(
                PingPongError::OnlyOwnerCanPerformThisAction,
            ) && final(self)@ == old(self)@,
            caller == old(self)@.owner && ping_amount == 0 ==> r == Err::<(), PingPongError>(
                PingPongError::PingAmountCannotBeZero,
            ) && final(self)@ == old(self)@,
            caller == old(self)@.owner && ping_amount > 0 && duration_in_seconds == 0
                ==> r == Err::<(), PingPongError>(PingPongError::DurationCannotBeZero)
                    && final(self)@ == old(self)@,
            caller == old(self)@.owner && ping_amount > 0 && duration_in_seconds > 0
                ==> r == Ok::<(), PingPongError>(())
                    && final(self)@ == old(self)@.retuned(ping_amount, duration_in_seconds),
    {
        if caller != self.owner {
            return Err(PingPongError::OnlyOwnerCanPerformThisAction);
        }
        if ping_amount == 0 {
            return Err(PingPongError::PingAmountCannotBeZero);
        }
        if duration_in_seconds == 0 {
            return Err(PingPongError::DurationCannotBeZero);
        }
        self.ping_amount = ping_amount;
        self.duration_in_seconds = duration_in_seconds;
        proof {
            assert(self@ =~= old(self)@.retuned(ping_amount, duration_in_seconds));
        }
        Ok(())
    }

    /// Whether retuning to `duration_in_seconds` would keep every
    /// recorded lock's eligible time representable: the executable check
    /// for `upgrade`'s overflow precondition.
    pub fn retune_fits(&self, duration_in_seconds: u64) -> (r: bool)
        requires
            self.inv(),
        ensures
            r == forall|p: u64| self@.ledger.dom().contains(p)
                ==> #[trigger] self@.ledger[p] + duration_in_seconds <= u64::MAX,
    {
        let bound = u64::MAX - duration_in_seconds;
        let r = self.user_ping_timestamps.all_within(bound);
        proof {
            if r {
                assert forall|p: u64| self@.ledger.dom().contains(p)
                    implies #[trigger] self@.ledger[p] + duration_in_seconds <= u64::MAX by {
                    assert(self@.ledger[p] <= bound);
                }
            } else {
                let p = choose|p: u64|
                    !(self@.ledger.dom().contains(p) ==> #[trigger] self@.ledger[p] <= bound);
                assert(self@.ledger[p] + duration_in_seconds > u64::MAX);
            }
        }
        r
    }

    /// The deposit ("ping") transition. Checked in order: the mechanism is
    /// open; the payment is the accepted asset; the payment is the exact
    /// required amount; the caller holds no active lock. On success the
    /// caller's lock is recorded at time `now` and the attached payment
    /// stays in custody; the host boundary emits the deposit notification.
    pub fn ping(
        &mut self,
        caller: u64,
        payment_token: AssetId,
        payment_amount: u128,
        now: u64,
    ) -> (r: Result<(), PingPongError>)
        requires
            old(self).inv(),
            old(self)@.wf(),
            old(self)@.ping_allowed(caller, payment_token, payment_amount)
                ==> now + old(self)@.duration <= u64::MAX,
        ensures
            final(self).inv(),
            final(self)@.wf(),
            old(self)@.paused ==> r == Err::<(), PingPongError>(PingPongError::ContractPaused)
                && final(self)@ == old(self)@,
            !old(self)@.paused && payment_token != old(self)@.asset ==> r == Err::<
                (),
                PingPongError,
            >(PingPongError::InvalidPaymentToken) && final(self)@ == old(self)@,
            !old(self)@.paused && payment_token == old(self)@.asset && payment_amount != old(
                self,
            )@.amount ==> r == Err::<(), PingPongError>(PingPongError::IncorrectPingAmount)
                && final(self)@ == old(self)@,
            !old(self)@.paused && payment_token == old(self)@.asset && payment_amount == old(
                self,
            )@.amount && old(self)@.has_lock(caller) ==> r == Err::<(), PingPongError>(
                PingPongError::AlreadyPinged,
            ) && final(self)@ == old(self)@,
            old(self)@.ping_allowed(caller, payment_token, payment_amount) ==> r == Ok::<
                (),
                PingPongError,
            >(()) && final(self)@ == old(self)@.after_ping(caller, now),
    {
        if self.paused {
            return Err(PingPongError::ContractPaused);
        }
        if payment_token != self.accepted_payment_token_id {
            return Err(PingPongError::InvalidPaymentToken);
        }
        if payment_amount != self.ping_amount {
            return Err(PingPongError::IncorrectPingAmount);
        }
        if self.user_ping_timestamps.contains(caller) {
            return Err(PingPongError::AlreadyPinged);
        }
        self.user_ping_timestamps.insert(caller, now);
        proof {
            assert(self@ =~= old(self)@.after_ping(caller, now));
        }
        Ok(())
    }

    /// The withdrawal ("pong") transition. Checked in order: the mechanism is
    /// open; the caller holds an active lock; the lock has elapsed. On
    /// success the caller's ledger entry is cleared first — before any
    /// transfer can happen, so a re-entering call finds no lock — and the
    /// payout owed to the caller is returned for the host boundary to
    /// transfer and announce.
    pub fn pong(&mut self, caller: u64, now: u64) -> (r: Result<Payout, PingPongError>)
        requires
            old(self).inv(),
            old(self)@.wf(),
        ensures
            final(self).inv(),
            final(self)@.wf(),
            old(self)@.paused ==> r == Err::<Payout, PingPongError>(PingPongError::ContractPaused)
                && final(self)@ == old(self)@,
            !old(self)@.paused && !old(self)@.has_lock(caller) ==> r == Err::<
                Payout,
                PingPongError,
            >(PingPongError::NoPingFound) && final(self)@ == old(self)@,
            !old(self)@.paused && old(self)@.has_lock(caller) && now < old(self)@.eligible_time(
                caller,
            ) ==> r == Err::<Payout, PingPongError>(PingPongError::CannotPongBeforeDeadline)
                && final(self)@ == old(self)@,
            old(self)@.pong_allowed(caller, now) ==> (r matches Ok(payout)
                && payout == (Payout { asset: old(self)@.asset, amount: old(self)@.amount })
                && final(self)@ == old(self)@.after_pong(caller)),
    {
        if self.paused {
            return Err(PingPongError::ContractPaused);
        }
        let ts = match self.user_ping_timestamps.get(caller) {
            Some(ts) => ts,
            None => {
                return Err(PingPongError::NoPingFound);
            },
        };
        let deadline = ts + self.duration_in_seconds;
        if now < deadline {
            return Err(PingPongError::CannotPongBeforeDeadline);
        }
        self.user_ping_timestamps.remove(caller);
        proof {
            assert(self@ =~= old(self)@.after_pong(caller));
        }
        Ok(Payout { asset: self.accepted_payment_token_id, amount: self.ping_amount })
    }

    /// Owner-only: close the lifecycle gate. Idempotent.
    pub fn pause(&mut self, caller: u64) -> (r: Result<(), PingPongError>)
        requires
            old(self).inv(),
            old(self)@.wf(),
        ensures
            final(self).inv(),
            final(self)@.wf(),
            caller != old(self)@.owner ==> r == Err::<(), PingPongError>(
                PingPongError::OnlyOwnerCanPerformThisAction,
            ) && final(self)@ == old(self)@,
            caller == old(self)@.owner ==> r == Ok::<(), PingPongError>(())
                && final(self)@ == old(self)@.with_paused(true),
    {
        if caller != self.owner {
            return Err(PingPongError::OnlyOwnerCanPerformThisAction);
        }
        self.paused = true;
        proof {
            assert(self@ =~= old(self)@.with_paused(true));
        }
        Ok(())
    }

    /// Owner-only: open the lifecycle gate. Idempotent.
    pub fn unpause(&mut self, caller: u64) -> (r: Result<(), PingPongError>)
        requires
            old(self).inv(),
            old(self)@.wf(),
        ensures
            final(self).inv(),
            final(self)@.wf(),
            caller != old(self)@.owner ==> r == Err::<(), PingPongError>(
                PingPongError::OnlyOwnerCanPerformThisAction,
            ) && final(self)@ == old(self)@,
            caller == old(self)@.owner ==> r == Ok::<(), PingPongError>(())
                && final(self)@ == old(self)@.with_paused(false),
    {
        if caller != self.owner {
            return Err(PingPongError::OnlyOwnerCanPerformThisAction);
        }
        self.paused = false;
        proof {
            assert(self@ =~= old(self)@.with_paused(false));
        }
        Ok(())
    }

    /// Extend the caller's own lock. Checked in order: the mechanism is not paused;
    /// the caller holds an active lock; the extension is positive. On
    /// success the recorded timestamp moves forward by exactly
    /// `additional_seconds`, so the eligible time does too.
    pub fn extend_ping_duration(
        &mut self,
        caller: u64,
        additional_seconds: u64,
    ) -> (r: Result<(), PingPongError>)
        requires
            old(self).inv(),
            old(self)@.wf(),
            old(self)@.extend_allowed(caller, additional_seconds) ==> old(self)@.ledger[caller]
                + additional_seconds + old(self)@.duration <= u64::MAX,
        ensures
            final(self).inv(),
            final(self)@.wf(),
            old(self)@.paused ==> r == Err::<(), PingPongError>(PingPongError::ContractPaused)
                && final(self)@ == old(self)@,
            !old(self)@.paused && !old(self)@.has_lock(caller) ==> r == Err::<(), PingPongError>(
                PingPongError::NoPingFound,
            ) && final(self)@ == old(self)@,
            !old(self)@.paused && old(self)@.has_lock(caller) && additional_seconds == 0
                ==> r == Err::<(), PingPongError>(PingPongError::InvalidExtensionAmount)
                    && final(self)@ == old(self)@,
            old(self)@.extend_allowed(caller, additional_seconds) ==> r == Ok::<(), PingPongError>(
                (),
            ) && final(self)@ == old(self)@.after_extend(caller, additional_seconds),
    {
        if self.paused {
            return Err(PingPongError::ContractPaused);
        }
        let ts = match self.user_ping_timestamps.get(caller) {
            Some(ts) => ts,
            None => {
                return Err(PingPongError::NoPingFound);
            },
        };
        if additional_seconds == 0 {
            return Err(PingPongError::InvalidExtensionAmount);
        }
        let new_ts = ts + additional_seconds;
        self.user_ping_timestamps.insert(caller, new_ts);
        proof {
            assert(self@ =~= old(self)@.after_extend(caller, additional_seconds));
        }
        Ok(())
    }

    /// Whether `address` holds an active lock.
    pub fn did_user_ping(&self, address: u64) -> (r: bool)
        requires
            self.inv(),
        ensures
            r == self@.has_lock(address),
    {
        self.user_ping_timestamps.contains(address)
    }

    /// The earliest time at which `address` may withdraw; `0` when it
    /// holds no lock.
    pub fn get_pong_enable_timestamp(&self, address: u64) -> (r: u64)
        requires
            self.inv(),
            self@.wf(),
        ensures
            r == self@.eligible_time(address),
    {
        match self.user_ping_timestamps.get(address) {
            Some(ts) => {
                proof {
                    assert(self@.ledger[address] + self@.duration <= u64::MAX);
                }
                ts + self.duration_in_seconds
            },
            None => 0,
        }
    }

    /// How long `address` still has to wait at time `now`: nothing when
    /// it holds no lock, `0` once eligible, else the seconds left.
    pub fn get_time_to_pong(&self, address: u64, now: u64) -> (r: Option<u64>)
        requires
            self.inv(),
            self@.wf(),
        ensures
            !self@.has_lock(address) ==> r == None::<u64>,
            self@.has_lock(address) && now >= self@.eligible_time(address) ==> r == Some(0u64),
            self@.has_lock(address) && now < self@.eligible_time(address) ==> r == Some(
                (self@.eligible_time(address) - now) as u64,
            ),
    {
        let deadline = match self.user_ping_timestamps.get(address) {
            Some(ts) => {
                proof {
                    assert(self@.ledger[address] + self@.duration <= u64::MAX);
                }
                ts + self.duration_in_seconds
            },
            None => {
                return None;
            },
        };
        if now >= deadline {
            Some(0)
        } else {
            Some(deadline - now)
        }
    }

    /// The asset deposits must be paid in.
    pub fn get_accepted_payment_token(&self) -> (r: AssetId)
        ensures
            r == self@.asset,
    {
        self.accepted_payment_token_id
    }

    /// The exact amount each deposit must attach.
    pub fn get_ping_amount(&self) -> (r: u128)
        ensures
            r == self@.amount,
    {
        self.ping_amount
    }

    /// The configured lock duration, in seconds.
    pub fn get_duration_timestamp(&self) -> (r: u64)
        ensures
            r == self@.duration,
    {
        self.duration_in_seconds
    }

    /// The recorded deposit time of `address`; `0` when it holds no lock.
    pub fn get_user_ping_timestamp(&self, address: u64) -> (r: u64)
        requires
            self.inv(),
        ensures
            self@.has_lock(address) ==> r == self@.ledger[address],
            !self@.has_lock(address) ==> r == 0,
    {
        match self.user_ping_timestamps.get(address) {
            Some(ts) => ts,
            None => 0,
        }
    }

    /// Whether the lifecycle gate is closed.
    pub fn get_paused(&self) -> (r: bool)
        ensures
            r == self@.paused,
    {
        self.paused
    }

    /// The owner identity.
    pub fn get_owner(&self) -> (r: u64)
        ensures
            r == self@.owner,
    {
        self.owner
    }
}

} // verus!
