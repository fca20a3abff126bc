//! The lifecycle's guarantees, stated over the mathematical model and proved
//! once for every reachable state.
//!
//! `step` is the whole environment of one record address: the three
//! operations of this library, plus the two things the host can do on its
//! own - purge an account whose balance reached zero, and accept a deposit
//! into an existing account (which is how an adversary keeps a closed
//! record's bytes alive). The host writes record data through no other path;
//! that trust in the storage layer is the stated assumption this design
//! rests on.

use vstd::prelude::*;
use crate::codec::{is_tombstone, lemma_tombstone, timestamp_of, token_account_of, user_of};
use crate::entry::{MyError, COOLDOWN_SECONDS};
use crate::lifecycle::{
    enter_next, redeem_check, redeem_next, slot_live, AccountView, EnterLottery, RedeemWinnings,
    SlotView,
};

verus! {

/// Everything that can happen at one record address.
pub enum Event {
    /// A caller attempts to create the entry (`enter_lottery`).
    Enter { accounts: EnterLottery, now: i64, rent: u64 },
    /// A caller attempts to redeem it (`redeem_winnings_secure`).
    Redeem { accounts: RedeemWinnings, now: i64 },
    /// Someone attempts the maintenance sweep against the stored record
    /// (`force_defund`), with the destination's balance at the given value.
    Defund { destination_lamports: u64 },
    /// Anyone deposits into the stored account, keeping its bytes alive.
    Fund { amount: u64 },
    /// The host purges an account whose balance is zero.
    Reap,
}

/// The state after one event; an event whose preconditions fail changes
/// nothing, exactly as the operations' contracts say.
pub open spec fn step(v: SlotView, e: Event) -> SlotView {
    match e {
        Event::Enter { accounts, now, rent } => if v.record is None {
            enter_next(v, accounts, now, rent)
        } else {
            v
        },
        Event::Redeem { accounts, now } => if redeem_check(v, accounts, now as int) is None {
            redeem_next(v)
        } else {
            v
        },
        Event::Defund { destination_lamports } => match v.record {
            Some(acc) => if is_tombstone(acc.data) && destination_lamports + acc.lamports
                <= u64::MAX {
                SlotView { record: Some(AccountView { lamports: 0, data: acc.data }) }
            } else {
                v
            },
            None => v,
        },
        Event::Fund { amount } => match v.record {
            Some(acc) => if acc.lamports + amount <= u64::MAX {
                SlotView {
                    record: Some(
                        AccountView { lamports: (acc.lamports + amount) as u64, data: acc.data },
                    ),
                }
            } else {
                v
            },
            None => v,
        },
        Event::Reap => match v.record {
            Some(acc) => if acc.lamports == 0 {
                SlotView { record: None }
            } else {
                v
            },
            None => v,
        },
    }
}

/// How many reward issuances a run of events performs.
pub open spec fn issue_count(v: SlotView, evs: Seq<Event>) -> nat
    decreases evs.len(),
{
    if evs.len() == 0 {
        0
    } else {
        (match evs[0] {
            Event::Redeem { accounts, now } => if redeem_check(v, accounts, now as int) is None {
                1nat
            } else {
                0nat
            },
            _ => 0nat,
        }) + issue_count(step(v, evs[0]), evs.drop_first())
    }
}

/// How many records a run of events creates.
pub open spec fn create_count(v: SlotView, evs: Seq<Event>) -> nat
    decreases evs.len(),
{
    if evs.len() == 0 {
        0
    } else {
        (match evs[0] {
            Event::Enter { .. } => if v.record is None {
                1nat
            } else {
                0nat
            },
            _ => 0nat,
        }) + create_count(step(v, evs[0]), evs.drop_first())
    }
}

/// One redemption is still owed if a live record stands in the slot.
pub open spec fn live_credit(v: SlotView) -> nat {
    if slot_live(v) {
        1nat
    } else {
        0nat
    }
}

/// Single redemption: once a redemption has succeeded, no redemption against
/// the same address can succeed again - the tombstoned bytes no longer pass
/// as a live typed record, whoever calls and whenever.
pub proof fn lemma_single_redemption(
    v: SlotView,
    a1: RedeemWinnings,
    now1: i64,
    a2: RedeemWinnings,
    now2: i64,
)
    requires
        redeem_check(v, a1, now1 as int) is None,
    ensures
        redeem_check(redeem_next(v), a2, now2 as int) == Some(MyError::RecordNotFound),
{
    lemma_tombstone(v.record->0.data);
}

/// Cooldown enforcement: with a live record, the right owner and the bound
/// token account, redemption fails with `TooEarlyToRedeem` for any elapsed
/// time at or under the cooldown, and passes every check for any elapsed
/// time strictly over it.
pub proof fn lemma_cooldown_enforcement(v: SlotView, a: RedeemWinnings, now: i64)
    requires
        slot_live(v),
        user_of(v.record->0.data) == a.user@,
        token_account_of(v.record->0.data) == a.user_ata@,
    ensures
        now - timestamp_of(v.record->0.data) <= COOLDOWN_SECONDS ==> redeem_check(
            v,
            a,
            now as int,
        ) == Some(MyError::TooEarlyToRedeem),
        now - timestamp_of(v.record->0.data) > COOLDOWN_SECONDS ==> redeem_check(
            v,
            a,
            now as int,
        ) is None,
{
}

/// Ownership binding: redemption fails when the supplied token account
/// differs from the one bound at creation, even when the caller is the
/// record's rightful user.
pub proof fn lemma_ownership_binding(v: SlotView, a: RedeemWinnings, now: i64)
    requires
        slot_live(v),
        user_of(v.record->0.data) == a.user@,
        token_account_of(v.record->0.data) != a.user_ata@,
    ensures
        redeem_check(v, a, now as int) == Some(MyError::TokenAccountMismatch),
{
}

/// No double spend through revival: along any run of events - creations,
/// redemptions, sweeps, purges, and adversarial deposits that keep closed
/// bytes alive - the number of reward issuances never exceeds the number of
/// creations, plus the one redemption a pre-existing live record is owed.
/// Reviving a closed record cannot mint a second reward for the same entry.
pub proof fn lemma_no_double_spend(v: SlotView, evs: Seq<Event>)
    ensures
        issue_count(v, evs) <= create_count(v, evs) + live_credit(v),
    decreases evs.len(),
{
    if evs.len() == 0 {
    } else {
        let e = evs[0];
        let v2 = step(v, e);
        lemma_no_double_spend(v2, evs.drop_first());
        match e {
            Event::Redeem { accounts, now } => {
                if redeem_check(v, accounts, now as int) is None {
                    lemma_tombstone(v.record->0.data);
                }
            },
            Event::Defund { .. } => {
                assert(live_credit(v2) <= live_credit(v));
            },
            _ => {},
        }
    }
}

} // verus!
