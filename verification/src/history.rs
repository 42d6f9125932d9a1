//! What becomes of a recurring swap over any number of swaps and deposits.
use crate::funding::deposit_refusal;
use crate::laws::{
    deposit_keeps_well_formed, same_terms, swap_keeps_well_formed, wake_keeps_well_formed,
};
use crate::schedule::tolerance;
use crate::state::DdcaAccount;
use crate::token::VaultBalances;
use vstd::prelude::*;

verus! {

/// Something that happens to a recurring swap.
pub enum Event {
    /// At time `now` the checkpoint `t` is served.
    Wake { now: u64, t: u64 },
    /// The outcome of a swap is taken note of.
    Outcome { before: VaultBalances, after: VaultBalances },
    /// At time `now` this amount is added.
    Deposit { now: u64, amount: u64 },
}

impl Event {
    /// Whether this can happen to a recurring swap in the state `ddca`, when the clock showed
    /// `clock` before.
    pub open spec fn is_possible(self, ddca: DdcaAccount, clock: u64) -> bool {
        match self {
            Event::Wake { now, t } => {
                &&& clock <= now
                &&& !ddca.is_paused
                &&& ddca.is_due(now, t as int)
                &&& ddca.swap_count < u64::MAX
            },
            Event::Outcome { before, after } => ddca.swap_in_range(before, after),
            Event::Deposit { now, amount } => {
                &&& clock <= now
                &&& deposit_refusal(amount, ddca.amount_per_swap) is None
                &&& ddca.total_deposits_amount + amount <= u64::MAX
            },
        }
    }

    /// The state that follows.
    pub open spec fn state_after(self, ddca: DdcaAccount) -> DdcaAccount {
        match self {
            Event::Wake { now, t } => ddca.after_wake(t),
            Event::Outcome { before, after } => ddca.after_swap(before, after),
            Event::Deposit { now, amount } => ddca.after_deposit(amount, now),
        }
    }

    /// What the clock shows then.
    pub open spec fn clock_after(self, clock: u64) -> u64 {
        match self {
            Event::Wake { now, t } => now,
            Event::Outcome { before, after } => clock,
            Event::Deposit { now, amount } => now,
        }
    }

    /// Whether this is a swap.
    pub open spec fn is_swap(self) -> bool {
        self is Wake
    }
}

/// The state after all of `events`.
pub open spec fn state_after(ddca: DdcaAccount, events: Seq<Event>) -> DdcaAccount
    decreases events.len(),
{
    if events.len() == 0 {
        ddca
    } else {
        events.last().state_after(state_after(ddca, events.drop_last()))
    }
}

/// What the clock shows after all of `events`.
pub open spec fn clock_after(clock: u64, events: Seq<Event>) -> u64
    decreases events.len(),
{
    if events.len() == 0 {
        clock
    } else {
        events.last().clock_after(clock_after(clock, events.drop_last()))
    }
}

/// Whether `events` can happen, one after the other, to a recurring swap in the state `ddca`, when
/// the clock showed `clock` before.
pub open spec fn is_history(ddca: DdcaAccount, clock: u64, events: Seq<Event>) -> bool
    decreases events.len(),
{
    events.len() > 0 ==> {
        &&& is_history(ddca, clock, events.drop_last())
        &&& events.last().is_possible(
            state_after(ddca, events.drop_last()),
            clock_after(clock, events.drop_last()),
        )
    }
}

/// The number of swaps among `events`.
pub open spec fn swaps_among(events: Seq<Event>) -> nat
    decreases events.len(),
{
    if events.len() == 0 {
        0
    } else {
        swaps_among(events.drop_last()) + if events.last().is_swap() {
            1nat
        } else {
            0nat
        }
    }
}

/// The amounts deposited among `events`, added up.
pub open spec fn deposits_among(events: Seq<Event>) -> nat
    decreases events.len(),
{
    if events.len() == 0 {
        0
    } else {
        deposits_among(events.drop_last()) + match events.last() {
            Event::Deposit { now, amount } => amount as nat,
            _ => 0nat,
        }
    }
}

/// Whatever happens to a recurring swap after it was made, it stays well-formed and on the same
/// terms, and its record counts all its swaps and deposits. In particular, the swaps are never
/// more than the checkpoints up to the one served last.
pub proof fn every_history_is_well_formed(ddca: DdcaAccount, clock: u64, events: Seq<Event>)
    requires
        ddca.well_formed(),
        ddca.is_new(),
        is_history(ddca, clock, events),
    ensures
        state_after(ddca, events).well_formed(),
        same_terms(ddca, state_after(ddca, events)),
        state_after(ddca, events).swap_count == swaps_among(events),
        state_after(ddca, events).total_deposits_amount == ddca.total_deposits_amount
            + deposits_among(events),
        0 < swaps_among(events) ==> state_after(ddca, events).last_completed_swap_ts
            <= clock_after(clock, events) + tolerance(ddca.interval_in_seconds as int),
    decreases events.len(),
{
    if events.len() > 0 {
        let earlier = events.drop_last();
        every_history_is_well_formed(ddca, clock, earlier);
        let state = state_after(ddca, earlier);
        match events.last() {
            Event::Wake { now, t } => {
                wake_keeps_well_formed(state, clock_after(clock, earlier) as int, now, t);
            },
            Event::Outcome { before, after } => {
                swap_keeps_well_formed(state, before, after);
            },
            Event::Deposit { now, amount } => {
                deposit_keeps_well_formed(state, amount, now);
            },
        }
    }
}

} // verus!
