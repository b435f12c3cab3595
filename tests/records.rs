use bet::{
    accept_friend, add_friend, create_profile, AcceptFriend, AddFriend, Address, BetAvailableTo,
    BetCategory, BetError, BetStatus, CreateProfile, RefereeType, Treasury,
};

fn addr(b: u8) -> Address {
    Address::new([b; 32])
}

fn named(who: Address, name: u8) -> bet::Profile {
    create_profile(&CreateProfile { wallet: who }, [name; 32], 42, 7)
}

#[test]
fn create_profile_starts_at_zero() {
    let p = create_profile(&CreateProfile { wallet: addr(3) }, [9u8; 32], 1234, 253);
    assert!(p.wallet == addr(3));
    assert_eq!(p.name, [9u8; 32]);
    assert_eq!(p.total_my_bet_count, 0);
    assert_eq!(p.cancelled_bet_count, 0);
    assert_eq!(p.total_bets_accepted_count, 0);
    assert_eq!(p.total_my_bet_wins, 0);
    assert_eq!(p.total_my_bet_losses, 0);
    assert_eq!(p.total_accepted_bet_wins, 0);
    assert_eq!(p.total_accepted_bet_losses, 0);
    assert_eq!(p.total_my_bet_profit, 0);
    assert_eq!(p.total_accepted_bet_profit, 0);
    assert_eq!(p.total_my_bet_volume, 0);
    assert_eq!(p.total_accepted_bet_volume, 0);
    assert_eq!(p.created_at, 1234);
    assert_eq!(p.version, 1);
    assert_eq!(p.bump, 253);
}

#[test]
fn record_outcome_moves_the_matching_fields() {
    let p = named(addr(1), 1);
    let won = p.record_outcome(true, true, 300).unwrap();
    assert_eq!(won.total_my_bet_wins, 1);
    assert_eq!(won.total_my_bet_profit, 300);
    assert_eq!(won.total_accepted_bet_profit, 0);
    let lost = won.record_outcome(false, false, -50).unwrap();
    assert_eq!(lost.total_accepted_bet_losses, 1);
    assert_eq!(lost.total_accepted_bet_profit, -50);
    assert_eq!(lost.total_my_bet_profit, 300);
    let mut full = p;
    full.total_accepted_bet_wins = u32::MAX;
    assert_eq!(full.record_outcome(false, true, 1).err(), Some(BetError::ArithmeticOverflow));
    let mut low = p;
    low.total_my_bet_profit = i64::MIN;
    assert_eq!(low.record_outcome(true, false, -1).err(), Some(BetError::ArithmeticOverflow));
}

#[test]
fn address_comparison() {
    let mut bytes = [4u8; 32];
    assert!(addr(4) == Address::new(bytes));
    bytes[31] = 5;
    assert!(addr(4) != Address::new(bytes));
    assert!(!addr(4).same_as(&Address::new(bytes)));
    bytes[31] = 4;
    bytes[0] = 0;
    assert!(addr(4) != Address::new(bytes));
}

#[test]
fn add_friend_records_request() {
    let ctx = AddFriend { user: addr(1), user_profile: named(addr(1), 11), friend_profile: named(addr(2), 22) };
    let f = add_friend(&ctx, 99, 3).unwrap();
    assert!(f.user_a_wallet == addr(1));
    assert!(f.user_b_wallet == addr(2));
    assert_eq!(f.user_a_username, [11u8; 32]);
    assert_eq!(f.user_b_username, [22u8; 32]);
    assert_eq!(f.user_a_status, 1);
    assert_eq!(f.user_b_status, 0);
    assert_eq!(f.created_at, 99);
    assert_eq!(f.version, 1);
    assert_eq!(f.bump, 3);
}

#[test]
fn add_friend_rejects_foreign_profile_and_self() {
    let foreign = AddFriend { user: addr(1), user_profile: named(addr(3), 1), friend_profile: named(addr(2), 2) };
    assert_eq!(add_friend(&foreign, 0, 0).err(), Some(BetError::InvalidProfileOwner));
    let own = AddFriend { user: addr(1), user_profile: named(addr(1), 1), friend_profile: named(addr(1), 1) };
    assert_eq!(add_friend(&own, 0, 0).err(), Some(BetError::InvalidProfileOwner));
}

#[test]
fn accept_friend_by_either_side() {
    let ctx = AddFriend { user: addr(1), user_profile: named(addr(1), 1), friend_profile: named(addr(2), 2) };
    let f = add_friend(&ctx, 5, 0).unwrap();

    let mut by_b = AcceptFriend { user: addr(2), friend_account: f };
    assert_eq!(accept_friend(&mut by_b), Ok(()));
    assert_eq!(by_b.friend_account.user_a_status, 2);
    assert_eq!(by_b.friend_account.user_b_status, 2);

    let mut by_a = AcceptFriend { user: addr(1), friend_account: f };
    assert_eq!(accept_friend(&mut by_a), Err(BetError::InvalidBetStatus));
    assert_eq!(by_a.friend_account.user_a_status, 1);
    assert_eq!(by_a.friend_account.user_b_status, 0);

    let mut swapped = f;
    swapped.user_a_status = 0;
    swapped.user_b_status = 1;
    let mut by_a = AcceptFriend { user: addr(1), friend_account: swapped };
    assert_eq!(accept_friend(&mut by_a), Ok(()));
    assert_eq!(by_a.friend_account.user_a_status, 2);
    assert_eq!(by_a.friend_account.user_b_status, 2);

    let mut stranger = AcceptFriend { user: addr(3), friend_account: f };
    assert_eq!(accept_friend(&mut stranger), Err(BetError::InvalidProfileOwner));
}

#[test]
fn codes_round_trip() {
    for code in 0u8..=3 {
        assert_eq!(RefereeType::from_code(code).unwrap().code(), code);
        assert_eq!(BetStatus::from_code(code).unwrap().code(), code);
    }
    assert_eq!(RefereeType::from_code(4), None);
    assert_eq!(BetStatus::from_code(4), None);
    assert_eq!(RefereeType::from_code(2), Some(RefereeType::ThirdParty));
    assert_eq!(BetStatus::from_code(3), Some(BetStatus::Resolved));
    for code in 0u8..=9 {
        assert_eq!(BetCategory::from_code(code).unwrap().code(), code);
    }
    assert_eq!(BetCategory::from_code(10), None);
    assert_eq!(BetCategory::from_code(9), Some(BetCategory::Other));
    for code in 0u8..=2 {
        assert_eq!(BetAvailableTo::from_code(code).unwrap().code(), code);
    }
    assert_eq!(BetAvailableTo::from_code(3), None);
    assert_eq!(BetAvailableTo::from_code(1), Some(BetAvailableTo::FriendsOnly));
    assert!(BetStatus::Cancelled.is_terminal());
    assert!(BetStatus::Resolved.is_terminal());
    assert!(!BetStatus::Open.is_terminal());
    assert!(!BetStatus::Accepted.is_terminal());
}

#[test]
fn treasury_deposit_and_payout() {
    let mut t = Treasury::new();
    assert_eq!(t.balance, 0);
    assert_eq!(t.deposit(10), Ok(()));
    assert_eq!(t.deposit(u64::MAX), Err(BetError::ArithmeticOverflow));
    assert_eq!(t.balance, 10);
    assert_eq!(t.payout(11), Err(BetError::ArithmeticOverflow));
    assert_eq!(t.payout(4), Ok(()));
    assert_eq!(t.balance, 6);
    assert_eq!(t.drain(), 6);
    assert_eq!(t.balance, 0);
}
