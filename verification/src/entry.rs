use vstd::prelude::*;
use crate::keys::Pubkey;

verus! {

/// Seconds that must have elapsed since creation before an entry may be
/// redeemed; redemption requires strictly more than this.
pub const COOLDOWN_SECONDS: i64 = 60;

/// Reward units minted to the bound token account on redemption.
pub const REWARD_AMOUNT: u64 = 100;

/// One reward entry, bound at creation to its owning user and to the token
/// account that any later reward issuance must go to.
#[derive(Clone, Copy)]
pub struct LotteryAccount {
    /// Set once at creation; no operation gates on it. Whether it should
    /// stay dead metadata or become a second double-spend guard is a
    /// documented open question of this design.
    pub is_initialized: bool,
    /// Owning principal; immutable for the life of the record.
    pub user: Pubkey,
    /// Disambiguator used to re-derive this record's deterministic address.
    pub bump: u8,
    /// Creation time in seconds, from the host's monotonic clock.
    pub timestamp: i64,
    /// Destination for reward issuance; immutable after creation.
    pub user_ata: Pubkey,
}

/// Every way an operation can refuse to act. Each failure leaves all state
/// exactly as it was.
#[derive(Clone, Copy, PartialEq, Eq, Structural, Debug)]
pub enum MyError {
    /// Create was called while the deterministic address is occupied.
    RecordAlreadyExists,
    /// Redeem was called while no live typed record stands at the address.
    RecordNotFound,
    /// The caller is not the user bound to the record.
    OwnershipMismatch,
    /// The supplied token account differs from the one bound at creation.
    TokenAccountMismatch,
    /// The cooldown has not elapsed yet.
    TooEarlyToRedeem,
    /// Reclamation was attempted against a record whose header tag is not
    /// the closed tombstone.
    InvalidDiscriminator,
    /// The balance transfer would overflow the destination's balance.
    BalanceOverflow,
}

} // verus!
