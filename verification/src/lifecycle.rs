//! The record lifecycle: create a time-stamped entry, redeem it once after
//! the cooldown (issuing the reward and tombstoning the record), and forcibly
//! reclaim the storage-backing balance of a record whose header tag shows it
//! as closed.
//!
//! The host runtime owns the clock, the reward issuer and the balance
//! ledger; it hands each operation the stored bytes and balances, applies
//! the returned effects atomically, and is the only writer of record data
//! besides these operations. The functions here are the decisions: each one
//! says exactly when it succeeds, which typed failure it returns otherwise,
//! and how the stored state changes.

use vstd::prelude::*;
use crate::codec::{
    bump_of, bytes_eq_at, check_live, has_closed_tag, init_flag_of, is_live_entry, is_tombstone,
    lemma_serialize_fields, lemma_tombstone, read_timestamp, serialize_entry, spec_serialize,
    timestamp_of, token_account_of, tombstone_of, user_of, CLOSED_TAG_BYTE,
};
use crate::entry::{LotteryAccount, MyError, COOLDOWN_SECONDS, REWARD_AMOUNT};
use crate::keys::Pubkey;

verus! {

/// One stored account: its storage-backing balance and its raw bytes.
pub struct StoredAccount {
    pub lamports: u64,
    pub data: Vec<u8>,
}

/// The storage slot at a user's deterministic record address: vacant, or
/// holding an account (live or tombstoned bytes).
pub struct RecordSlot {
    pub record: Option<StoredAccount>,
}

/// Mathematical value of a stored account.
#[verifier::ext_equal]
pub struct AccountView {
    pub lamports: u64,
    pub data: Seq<u8>,
}

/// Mathematical value of a record slot.
#[verifier::ext_equal]
pub struct SlotView {
    pub record: Option<AccountView>,
}

impl View for StoredAccount {
    type V = AccountView;

    open spec fn view(&self) -> AccountView {
        AccountView { lamports: self.lamports, data: self.data@ }
    }
}

impl View for RecordSlot {
    type V = SlotView;

    open spec fn view(&self) -> SlotView {
        SlotView {
            record: match self.record {
                Some(acc) => Some(acc@),
                None => None,
            },
        }
    }
}

/// The accounts a caller presents to create an entry: the funding user, the
/// token account rewards are bound to, and the address disambiguator the
/// host derived for the new record.
#[derive(Clone, Copy)]
pub struct EnterLottery {
    pub user: Pubkey,
    pub user_ata: Pubkey,
    pub bump: u8,
}

/// The accounts a caller presents to redeem: the claimed owner, the token
/// account to mint to, the reward mint, and the derived minting authority.
#[derive(Clone, Copy)]
pub struct RedeemWinnings {
    pub user: Pubkey,
    pub user_ata: Pubkey,
    pub reward_mint: Pubkey,
    pub mint_auth: Pubkey,
}

/// The accounts the maintenance sweep touches: the record under reclamation
/// and the balance of the destination the reclaimed lamports go to.
pub struct ForceDefund {
    pub data_account: StoredAccount,
    pub destination_lamports: u64,
}

/// One reward-issuance instruction for the host's token ledger.
#[derive(Clone, Copy)]
pub struct MintAction {
    pub mint: Pubkey,
    pub to: Pubkey,
    pub authority: Pubkey,
}

/// Everything a successful redemption asks the host to do: issue the reward
/// and refund the record's storage balance to its owner.
#[derive(Clone, Copy)]
pub struct RedeemOutcome {
    pub mint: MintAction,
    pub amount: u64,
    pub refund_to: Pubkey,
    pub refund_lamports: u64,
}

impl RedeemWinnings {
    /// The issuance call a redemption makes: mint from `reward_mint` to the
    /// bound token account, authorized by the derived minting authority.
    pub fn mint_ctx(&self) -> (r: MintAction)
        ensures
            r == (MintAction { mint: self.reward_mint, to: self.user_ata, authority: self.mint_auth }),
    {
        MintAction { mint: self.reward_mint, to: self.user_ata, authority: self.mint_auth }
    }
}

/// Whether the slot holds a live typed entry record.
pub open spec fn slot_live(v: SlotView) -> bool {
    v.record matches Some(acc) && is_live_entry(acc.data)
}

/// The fresh record a creation writes.
pub open spec fn fresh_entry(a: EnterLottery, now: i64) -> LotteryAccount {
    LotteryAccount {
        is_initialized: true,
        user: a.user,
        bump: a.bump,
        timestamp: now,
        user_ata: a.user_ata,
    }
}

/// The slot after a successful creation: a live record funded with the
/// payer's rent, stamped `now`, bound to the caller's user and token account.
pub open spec fn enter_next(v: SlotView, a: EnterLottery, now: i64, rent: u64) -> SlotView {
    SlotView {
        record: Some(AccountView { lamports: rent, data: spec_serialize(fresh_entry(a, now)) }),
    }
}

/// The first precondition a redemption violates, if any, in the order the
/// host validates them: a live record must exist, the caller must be its
/// owner, the supplied token account must be the bound one, and strictly
/// more than the cooldown must have elapsed.
pub open spec fn redeem_check(v: SlotView, a: RedeemWinnings, now: int) -> Option<MyError> {
    if !slot_live(v) {
        Some(MyError::RecordNotFound)
    } else if user_of(v.record->0.data) != a.user@ {
        Some(MyError::OwnershipMismatch)
    } else if token_account_of(v.record->0.data) != a.user_ata@ {
        Some(MyError::TokenAccountMismatch)
    } else if now - timestamp_of(v.record->0.data) <= COOLDOWN_SECONDS {
        Some(MyError::TooEarlyToRedeem)
    } else {
        None
    }
}

/// The slot after a successful redemption: the record's balance is refunded
/// away and its header tag is overwritten with the closed tombstone, so the
/// bytes can never again pass as a live typed record.
pub open spec fn redeem_next(v: SlotView) -> SlotView
    recommends
        v.record is Some,
{
    SlotView {
        record: Some(AccountView { lamports: 0, data: tombstone_of(v.record->0.data) }),
    }
}

/// Creates the entry record at the user's deterministic address.
///
/// `now` is the host clock at creation (never negative on the host);
/// `rent` is the storage-backing balance the payer funds. Succeeds exactly
/// when the address is vacant, and then writes a fresh record; otherwise
/// fails with `RecordAlreadyExists` and changes nothing.
pub fn enter_lottery(slot: &mut RecordSlot, accounts: &EnterLottery, now: i64, rent: u64) -> (r:
    Result<(), MyError>)
    requires
        0 <= now,
    ensures
        match r {
            Ok(()) => {
                &&& old(slot)@.record is None
                &&& final(slot)@ == enter_next(old(slot)@, *accounts, now, rent)
                &&& slot_live(final(slot)@)
                &&& final(slot)@.record->0.lamports == rent
                &&& init_flag_of(final(slot)@.record->0.data)
                &&& user_of(final(slot)@.record->0.data) == accounts.user@
                &&& bump_of(final(slot)@.record->0.data) == accounts.bump
                &&& timestamp_of(final(slot)@.record->0.data) == now
                &&& token_account_of(final(slot)@.record->0.data) == accounts.user_ata@
            },
            Err(e) => {
                &&& e == MyError::RecordAlreadyExists
                &&& old(slot)@.record is Some
                &&& final(slot)@ == old(slot)@
            },
        },
{
    if slot.record.is_some() {
        return Err(MyError::RecordAlreadyExists);
    }
    let entry = LotteryAccount {
        is_initialized: true,
        user: accounts.user,
        bump: accounts.bump,
        timestamp: now,
        user_ata: accounts.user_ata,
    };
    let data = serialize_entry(&entry);
    slot.record = Some(StoredAccount { lamports: rent, data });
    proof {
        lemma_serialize_fields(entry);
    }
    Ok(())
}

/// Redeems the entry: issues the fixed reward to the bound token account and
/// closes the record.
///
/// `now` is the host clock at redemption; the record's timestamp was taken
/// from the same monotonic clock earlier, which is what the precondition
/// states. Succeeds exactly when a live record stands at the address, the
/// caller is its bound user, the supplied token account is the bound one,
/// and strictly more than `COOLDOWN_SECONDS` have elapsed; the record is
/// then tombstoned with its balance refunded to the user, and the returned
/// outcome carries the one reward issuance. Any failure returns the exact
/// violated precondition and leaves the record untouched and redeemable
/// later.
pub fn redeem_winnings_secure(slot: &mut RecordSlot, accounts: &RedeemWinnings, now: i64) -> (r:
    Result<RedeemOutcome, MyError>)
    requires
        slot_live(old(slot)@) ==> timestamp_of(old(slot)@.record->0.data) <= now,
    ensures
        match r {
            Ok(out) => {
                &&& redeem_check(old(slot)@, *accounts, now as int) is None
                &&& final(slot)@ == redeem_next(old(slot)@)
                &&& !slot_live(final(slot)@)
                &&& is_tombstone(final(slot)@.record->0.data)
                &&& final(slot)@.record->0.lamports == 0
                &&& out.mint == (MintAction {
                    mint: accounts.reward_mint,
                    to: accounts.user_ata,
                    authority: accounts.mint_auth,
                })
                &&& out.amount == REWARD_AMOUNT
                &&& out.refund_to == accounts.user
                &&& out.refund_lamports == old(slot)@.record->0.lamports
            },
            Err(e) => {
                &&& redeem_check(old(slot)@, *accounts, now as int) == Some(e)
                &&& final(slot)@ == old(slot)@
            },
        },
{
    match &slot.record {
        None => {
            return Err(MyError::RecordNotFound);
        },
        Some(acc) => {
            if !check_live(&acc.data) {
                return Err(MyError::RecordNotFound);
            }
            if !bytes_eq_at(&acc.data, 9, &accounts.user) {
                return Err(MyError::OwnershipMismatch);
            }
            if !bytes_eq_at(&acc.data, 50, &accounts.user_ata) {
                return Err(MyError::TokenAccountMismatch);
            }
            let ts = read_timestamp(&acc.data);
            if now - ts <= COOLDOWN_SECONDS {
                return Err(MyError::TooEarlyToRedeem);
            }
        },
    }
    let acc = slot.record.take().unwrap();
    let refund = acc.lamports;
    let mut closed_data: Vec<u8> = Vec::new();
    let mut i: usize = 0;
    while i < 8
        invariant
            i <= 8,
            closed_data@ =~= crate::codec::closed_tag().take(i as int),
        decreases 8 - i,
    {
        closed_data.push(CLOSED_TAG_BYTE);
        i += 1;
    }
    let n = acc.data.len();
    let mut j: usize = 8;
    while j < n
        invariant
            8 <= j <= n == acc.data@.len(),
            closed_data@ =~= crate::codec::closed_tag() + acc.data@.subrange(8, j as int),
        decreases n - j,
    {
        closed_data.push(acc.data[j]);
        j += 1;
    }
    proof {
        assert(closed_data@ =~= tombstone_of(acc.data@));
        lemma_tombstone(acc.data@);
    }
    slot.record = Some(StoredAccount { lamports: 0, data: closed_data });
    let out = RedeemOutcome {
        mint: accounts.mint_ctx(),
        amount: REWARD_AMOUNT,
        refund_to: accounts.user,
        refund_lamports: refund,
    };
    Ok(out)
}

/// Reclaims the storage-backing balance of a closed record.
///
/// Validates nothing but the header tag: once a record is closed its typed
/// meaning is gone, and the tag is the only trustworthy signal left. There
/// is deliberately no check on who calls this or on the destination: the
/// design leaves reclamation open to any caller, and that open boundary is
/// kept loudly documented here rather than silently closed.
///
/// Succeeds exactly when the tag is the closed tombstone and the transfer
/// does not overflow the destination's balance: the record's entire balance
/// is then added to the destination and zeroed on the record, its bytes
/// untouched. Fails with `InvalidDiscriminator` against any other tag, with
/// `BalanceOverflow` if the destination cannot absorb the balance; either
/// failure changes nothing.
pub fn force_defund(accounts: &mut ForceDefund) -> (r: Result<(), MyError>)
    requires
        old(accounts).data_account.data@.len() > 8,
    ensures
        match r {
            Ok(()) => {
                &&& is_tombstone(old(accounts).data_account.data@)
                &&& old(accounts).destination_lamports + old(accounts).data_account.lamports
                    <= u64::MAX
                &&& final(accounts).destination_lamports == old(accounts).destination_lamports
                    + old(accounts).data_account.lamports
                &&& final(accounts).data_account.lamports == 0
                &&& final(accounts).data_account.data@ == old(accounts).data_account.data@
            },
            Err(e) => {
                &&& final(accounts).data_account@ == old(accounts).data_account@
                &&& final(accounts).destination_lamports == old(accounts).destination_lamports
                &&& (e == MyError::InvalidDiscriminator <==> !is_tombstone(
                    old(accounts).data_account.data@,
                ))
                &&& (e == MyError::BalanceOverflow <==> is_tombstone(
                    old(accounts).data_account.data@,
                ) && old(accounts).destination_lamports + old(accounts).data_account.lamports
                    > u64::MAX)
                &&& (e == MyError::InvalidDiscriminator || e == MyError::BalanceOverflow)
            },
        },
{
    if !has_closed_tag(&accounts.data_account.data) {
        return Err(MyError::InvalidDiscriminator);
    }
    let moved = accounts.data_account.lamports;
    match accounts.destination_lamports.checked_add(moved) {
        Some(total) => {
            accounts.destination_lamports = total;
            accounts.data_account.lamports = 0;
            Ok(())
        },
        None => Err(MyError::BalanceOverflow),
    }
}

} // verus!
