//! A minimal resource-custody ledger: per-user reward-entry records in an
//! account-based, rent-funded store. Records are created bound to a user and
//! a token account, redeemed once after a cooldown (minting a fixed reward),
//! and closed; the storage balance of genuinely closed records can be
//! reclaimed by a maintenance sweep that trusts only the record's header tag.

pub mod codec;
pub mod entry;
pub mod keys;
pub mod laws;
pub mod lifecycle;
