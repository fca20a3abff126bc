use closing_accounts::codec::{
    check_live, has_closed_tag, parse_entry, serialize_entry, RECORD_SPACE,
};
use closing_accounts::entry::{LotteryAccount, MyError, COOLDOWN_SECONDS, REWARD_AMOUNT};
use closing_accounts::keys::Pubkey;
use closing_accounts::lifecycle::{
    enter_lottery, force_defund, redeem_winnings_secure, EnterLottery, ForceDefund, RecordSlot,
    RedeemWinnings, StoredAccount,
};

fn key(b: u8) -> Pubkey {
    Pubkey::new([b; 32])
}

fn enter_accounts(user: u8, ata: u8) -> EnterLottery {
    EnterLottery { user: key(user), user_ata: key(ata), bump: 254 }
}

fn redeem_accounts(user: u8, ata: u8) -> RedeemWinnings {
    RedeemWinnings {
        user: key(user),
        user_ata: key(ata),
        reward_mint: key(9),
        mint_auth: key(8),
    }
}

#[test]
fn constants_match_design() {
    assert_eq!(COOLDOWN_SECONDS, 60);
    assert_eq!(REWARD_AMOUNT, 100);
    assert_eq!(RECORD_SPACE, 8 + 1 + 32 + 1 + 8 + 32);
}

#[test]
fn enter_writes_a_live_record() {
    let mut slot = RecordSlot { record: None };
    let r = enter_lottery(&mut slot, &enter_accounts(1, 2), 1000, 500);
    assert!(r.is_ok());
    let acc = slot.record.as_ref().unwrap();
    assert_eq!(acc.lamports, 500);
    assert_eq!(acc.data.len(), 82);
    assert!(check_live(&acc.data));
    assert!(!has_closed_tag(&acc.data));
}

#[test]
fn enter_fails_on_occupied_address() {
    let mut slot = RecordSlot { record: None };
    assert!(enter_lottery(&mut slot, &enter_accounts(1, 2), 1000, 500).is_ok());
    let r = enter_lottery(&mut slot, &enter_accounts(1, 2), 2000, 500);
    assert_eq!(r, Err(MyError::RecordAlreadyExists));
    // The existing record is untouched: still live, still stamped 1000.
    let r2 = redeem_winnings_secure(&mut slot, &redeem_accounts(1, 2), 1061);
    assert!(r2.is_ok());
}

#[test]
fn redeem_fails_without_a_record() {
    let mut slot = RecordSlot { record: None };
    let r = redeem_winnings_secure(&mut slot, &redeem_accounts(1, 2), 1061);
    assert_eq!(r.err(), Some(MyError::RecordNotFound));
}

#[test]
fn redeem_fails_for_the_wrong_owner() {
    let mut slot = RecordSlot { record: None };
    assert!(enter_lottery(&mut slot, &enter_accounts(1, 2), 1000, 500).is_ok());
    let r = redeem_winnings_secure(&mut slot, &redeem_accounts(3, 2), 1061);
    assert_eq!(r.err(), Some(MyError::OwnershipMismatch));
}

#[test]
fn redeem_fails_for_a_substituted_token_account() {
    let mut slot = RecordSlot { record: None };
    assert!(enter_lottery(&mut slot, &enter_accounts(1, 2), 1000, 500).is_ok());
    // The caller is the right user, only the destination differs.
    let r = redeem_winnings_secure(&mut slot, &redeem_accounts(1, 4), 1061);
    assert_eq!(r.err(), Some(MyError::TokenAccountMismatch));
}

#[test]
fn redeem_cooldown_boundary() {
    // Elapsed exactly 60 must fail; strictly more succeeds.
    let mut slot = RecordSlot { record: None };
    assert!(enter_lottery(&mut slot, &enter_accounts(1, 2), 1000, 500).is_ok());
    let r = redeem_winnings_secure(&mut slot, &redeem_accounts(1, 2), 1060);
    assert_eq!(r.err(), Some(MyError::TooEarlyToRedeem));
    let r = redeem_winnings_secure(&mut slot, &redeem_accounts(1, 2), 1061);
    assert!(r.is_ok());
}

#[test]
fn scenario_create_redeem_reclaim() {
    // create(user=U, token_account=T) at time 1000
    let mut slot = RecordSlot { record: None };
    assert!(enter_lottery(&mut slot, &enter_accounts(1, 2), 1000, 890_880).is_ok());

    // redeem at 1030 fails TooEarlyToRedeem
    let r = redeem_winnings_secure(&mut slot, &redeem_accounts(1, 2), 1030);
    assert_eq!(r.err(), Some(MyError::TooEarlyToRedeem));

    // redeem at 1061 succeeds: 100 units to T, storage refunded to U, record closed
    let out = redeem_winnings_secure(&mut slot, &redeem_accounts(1, 2), 1061).unwrap();
    assert_eq!(out.amount, 100);
    assert_eq!(out.mint.to.bytes, [2u8; 32]);
    assert_eq!(out.mint.mint.bytes, [9u8; 32]);
    assert_eq!(out.mint.authority.bytes, [8u8; 32]);
    assert_eq!(out.refund_to.bytes, [1u8; 32]);
    assert_eq!(out.refund_lamports, 890_880);
    let closed = slot.record.take().unwrap();
    assert_eq!(closed.lamports, 0);
    assert!(has_closed_tag(&closed.data));
    assert!(!check_live(&closed.data));

    // a later deposit keeps the closed bytes alive with some backing balance
    let zombie = StoredAccount { lamports: 321, data: closed.data };

    // reclaim with destination D transfers exactly the backing balance
    let mut sweep = ForceDefund { data_account: zombie, destination_lamports: 1_000 };
    assert!(force_defund(&mut sweep).is_ok());
    assert_eq!(sweep.destination_lamports, 1_321);
    assert_eq!(sweep.data_account.lamports, 0);
}

#[test]
fn single_redemption_per_entry() {
    let mut slot = RecordSlot { record: None };
    assert!(enter_lottery(&mut slot, &enter_accounts(1, 2), 1000, 500).is_ok());
    assert!(redeem_winnings_secure(&mut slot, &redeem_accounts(1, 2), 1061).is_ok());
    // Re-attempting against the same address fails: the tag is no longer live.
    let r = redeem_winnings_secure(&mut slot, &redeem_accounts(1, 2), 5000);
    assert_eq!(r.err(), Some(MyError::RecordNotFound));
}

#[test]
fn revival_cannot_redeem_twice() {
    let mut slot = RecordSlot { record: None };
    assert!(enter_lottery(&mut slot, &enter_accounts(1, 2), 1000, 500).is_ok());
    assert!(redeem_winnings_secure(&mut slot, &redeem_accounts(1, 2), 1061).is_ok());

    // An attacker re-funds the closed record so the host never purges it.
    let closed = slot.record.take().unwrap();
    assert_eq!(closed.lamports, 0);
    slot.record = Some(StoredAccount { lamports: 999_999, data: closed.data });

    // The revived bytes still carry the tombstone tag: no second issuance.
    let r = redeem_winnings_secure(&mut slot, &redeem_accounts(1, 2), 9999);
    assert_eq!(r.err(), Some(MyError::RecordNotFound));

    // Only after a fresh creation (once the host purges the address) can one
    // more reward be issued - one issuance per creation.
    slot.record = None;
    assert!(enter_lottery(&mut slot, &enter_accounts(1, 2), 10_000, 500).is_ok());
    assert!(redeem_winnings_secure(&mut slot, &redeem_accounts(1, 2), 10_061).is_ok());
}

#[test]
fn force_defund_rejects_a_live_record() {
    let mut slot = RecordSlot { record: None };
    assert!(enter_lottery(&mut slot, &enter_accounts(1, 2), 1000, 500).is_ok());
    let live = slot.record.take().unwrap();
    let mut sweep = ForceDefund { data_account: live, destination_lamports: 0 };
    let r = force_defund(&mut sweep);
    assert_eq!(r, Err(MyError::InvalidDiscriminator));
    // Nothing moved.
    assert_eq!(sweep.destination_lamports, 0);
    assert_eq!(sweep.data_account.lamports, 500);
}

#[test]
fn force_defund_rejects_arbitrary_bytes() {
    let data = vec![7u8; 82];
    let mut sweep = ForceDefund {
        data_account: StoredAccount { lamports: 10, data },
        destination_lamports: 0,
    };
    assert_eq!(force_defund(&mut sweep), Err(MyError::InvalidDiscriminator));
}

#[test]
fn force_defund_overflow_moves_nothing() {
    let data = vec![255u8; 82];
    let mut sweep = ForceDefund {
        data_account: StoredAccount { lamports: 2, data },
        destination_lamports: u64::MAX - 1,
    };
    assert_eq!(force_defund(&mut sweep), Err(MyError::BalanceOverflow));
    assert_eq!(sweep.destination_lamports, u64::MAX - 1);
    assert_eq!(sweep.data_account.lamports, 2);
}

#[test]
fn serialized_layout_is_exact() {
    let e = LotteryAccount {
        is_initialized: true,
        user: key(0xAB),
        bump: 254,
        timestamp: 1000,
        user_ata: key(0xCD),
    };
    let d = serialize_entry(&e);
    assert_eq!(d.len(), 82);
    assert_eq!(d[8], 1); // init flag
    assert_eq!(&d[9..41], &[0xAB; 32]); // user
    assert_eq!(d[41], 254); // bump
    assert_eq!(&d[42..50], &1000i64.to_le_bytes()); // timestamp
    assert_eq!(&d[50..82], &[0xCD; 32]); // token account
    assert!(check_live(&d));
}

#[test]
fn parse_round_trips_a_serialized_record() {
    let e = LotteryAccount {
        is_initialized: true,
        user: key(0x11),
        bump: 253,
        timestamp: 1_700_000_000,
        user_ata: key(0x22),
    };
    let d = serialize_entry(&e);
    let e2 = parse_entry(&d).expect("a serialized record parses back");
    assert_eq!(e2.is_initialized, e.is_initialized);
    assert_eq!(e2.user.bytes, e.user.bytes);
    assert_eq!(e2.bump, e.bump);
    assert_eq!(e2.timestamp, e.timestamp);
    assert_eq!(e2.user_ata.bytes, e.user_ata.bytes);
}

#[test]
fn parse_rejects_what_is_not_a_live_record() {
    // Tombstoned bytes are no longer a typed record.
    assert!(parse_entry(&vec![255u8; 82]).is_none());
    // A foreign tag is not a typed record either.
    assert!(parse_entry(&vec![7u8; 82]).is_none());
    // Nor is a truncated buffer.
    assert!(parse_entry(&vec![0u8; 40]).is_none());
}

#[test]
fn mint_ctx_binds_the_stored_accounts() {
    let a = redeem_accounts(1, 2);
    let m = a.mint_ctx();
    assert_eq!(m.mint.bytes, a.reward_mint.bytes);
    assert_eq!(m.to.bytes, a.user_ata.bytes);
    assert_eq!(m.authority.bytes, a.mint_auth.bytes);
}

#[test]
fn key_equality_is_bytewise() {
    assert!(key(5).eq_key(&key(5)));
    assert!(!key(5).eq_key(&key(6)));
    let mut almost = [5u8; 32];
    almost[31] = 6;
    assert!(!key(5).eq_key(&Pubkey::new(almost)));
}
