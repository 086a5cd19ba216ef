use prediction_market::{
    claim_winnings, create_market, place_bet, resolve_market, update_price, ErrorCode, Identity,
    Market, MarketPhase, UserPosition,
};

// Every scenario runs under the fixed issuance policy: one share per unit
// deposited, with no price impact.

const NOW: i64 = 1_700_000_000;

fn key(tag: u8) -> Identity {
    Identity::new([tag; 32])
}

fn fresh_market() -> Market {
    create_market(key(1), String::from("Will it rain tomorrow?"), 1_000_000, NOW + 3600, NOW)
        .unwrap()
}

/// The market after a YES bet of 500_000 by user 10 and a NO bet of 500_000
/// by user 11, with both positions.
fn market_with_two_bets() -> (Market, UserPosition, UserPosition) {
    let mut market = fresh_market();
    let mut yes_bettor = UserPosition::get_or_create(None, key(2), key(10));
    let mut no_bettor = UserPosition::get_or_create(None, key(2), key(11));
    place_bet(&mut market, &mut yes_bettor, key(2), key(10), 500_000, true, NOW + 10).unwrap();
    place_bet(&mut market, &mut no_bettor, key(2), key(11), 500_000, false, NOW + 20).unwrap();
    (market, yes_bettor, no_bettor)
}

#[test]
fn new_market_shows_even_odds_and_holds_the_reserve() {
    let market = fresh_market();
    assert_eq!(market.current_yes_probability, 500_000);
    assert_eq!(market.total_liquidity, 1_000_000);
    assert_eq!(market.liquidity_param, 1_000_000);
    assert_eq!(market.total_yes_shares, 0);
    assert_eq!(market.total_no_shares, 0);
    assert!(!market.resolved);
    assert!(!market.outcome);
    assert_eq!(market.creator, key(1));
    assert_eq!(market.oracle_authority, key(1));
    assert_eq!(market.question, "Will it rain tomorrow?");
    assert_eq!(market.end_time, NOW + 3600);
    assert_eq!(market.created_at, NOW);
}

#[test]
fn first_yes_bet_moves_the_market_to_certainty() {
    let mut market = fresh_market();
    let mut position = UserPosition::get_or_create(None, key(2), key(10));
    let issued = place_bet(&mut market, &mut position, key(2), key(10), 500_000, true, NOW + 10);
    assert_eq!(issued, Ok(500_000));
    assert_eq!(market.total_yes_shares, 500_000);
    assert_eq!(market.total_no_shares, 0);
    assert_eq!(market.current_yes_probability, 1_000_000);
    assert_eq!(market.total_liquidity, 1_500_000);
    assert_eq!(position.yes_shares, 500_000);
    assert_eq!(position.no_shares, 0);
    assert_eq!(position.total_deposited, 500_000);
    assert!(!position.claimed);
    assert_eq!(position.market, key(2));
    assert_eq!(position.user, key(10));
}

#[test]
fn matching_no_bet_brings_the_market_back_to_even() {
    let (market, yes_bettor, no_bettor) = market_with_two_bets();
    assert_eq!(market.current_yes_probability, 500_000);
    assert_eq!(market.total_yes_shares, 500_000);
    assert_eq!(market.total_no_shares, 500_000);
    assert_eq!(market.total_liquidity, 2_000_000);
    assert_eq!(yes_bettor.yes_shares, 500_000);
    assert_eq!(no_bettor.no_shares, 500_000);
    assert_eq!(no_bettor.yes_shares, 0);
    assert_eq!(no_bettor.total_deposited, 500_000);
}

#[test]
fn sole_winner_is_paid_the_whole_pool() {
    let (mut market, mut yes_bettor, _) = market_with_two_bets();
    assert_eq!(resolve_market(&mut market, key(1), true, NOW + 3601), Ok(()));
    assert!(market.resolved);
    assert!(market.outcome);
    let mut pool = 2_000_000u64;
    let mut balance = 7u64;
    let paid = claim_winnings(&market, &mut yes_bettor, key(2), key(10), &mut pool, &mut balance);
    assert_eq!(paid, Ok(2_000_000));
    assert_eq!(pool, 0);
    assert_eq!(balance, 2_000_007);
    assert!(yes_bettor.claimed);
    assert_eq!(market.total_liquidity, 2_000_000);
}

#[test]
fn claim_fails_when_the_pool_holds_less_than_the_payout() {
    let (mut market, mut yes_bettor, _) = market_with_two_bets();
    resolve_market(&mut market, key(1), true, NOW + 3600).unwrap();
    let mut pool = 1_999_999u64;
    let mut balance = 0u64;
    let before = yes_bettor;
    let paid = claim_winnings(&market, &mut yes_bettor, key(2), key(10), &mut pool, &mut balance);
    assert_eq!(paid, Err(ErrorCode::InsufficientFunds));
    assert_eq!(pool, 1_999_999);
    assert_eq!(balance, 0);
    assert_eq!(yes_bettor, before);
    assert!(!yes_bettor.claimed);
}

#[test]
fn claim_on_unresolved_market_is_refused() {
    let (market, mut yes_bettor, _) = market_with_two_bets();
    let mut pool = 2_000_000u64;
    let mut balance = 0u64;
    let paid = claim_winnings(&market, &mut yes_bettor, key(2), key(10), &mut pool, &mut balance);
    assert_eq!(paid, Err(ErrorCode::NotResolved));
    assert_eq!(pool, 2_000_000);
    assert_eq!(balance, 0);
    assert!(!yes_bettor.claimed);
}

#[test]
fn claim_without_winning_shares_is_refused() {
    let (mut market, _, mut no_bettor) = market_with_two_bets();
    resolve_market(&mut market, key(1), true, NOW + 3600).unwrap();
    let mut pool = 2_000_000u64;
    let mut balance = 0u64;
    let paid = claim_winnings(&market, &mut no_bettor, key(2), key(11), &mut pool, &mut balance);
    assert_eq!(paid, Err(ErrorCode::NoWinnings));
    assert_eq!(pool, 2_000_000);
    assert_eq!(balance, 0);
    assert!(!no_bettor.claimed);
}

#[test]
fn no_side_wins_when_the_outcome_is_no() {
    let (mut market, mut yes_bettor, mut no_bettor) = market_with_two_bets();
    resolve_market(&mut market, key(1), false, NOW + 4000).unwrap();
    assert!(market.resolved);
    assert!(!market.outcome);
    let mut pool = 2_000_000u64;
    let mut balance = 0u64;
    assert_eq!(
        claim_winnings(&market, &mut yes_bettor, key(2), key(10), &mut pool, &mut balance),
        Err(ErrorCode::NoWinnings)
    );
    assert_eq!(
        claim_winnings(&market, &mut no_bettor, key(2), key(11), &mut pool, &mut balance),
        Ok(2_000_000)
    );
    assert_eq!(pool, 0);
    assert_eq!(balance, 2_000_000);
}

#[test]
fn second_claim_is_refused_and_leaves_the_pool_alone() {
    let (mut market, mut yes_bettor, _) = market_with_two_bets();
    resolve_market(&mut market, key(1), true, NOW + 3600).unwrap();
    let mut pool = 5_000_000u64;
    let mut balance = 0u64;
    let first = claim_winnings(&market, &mut yes_bettor, key(2), key(10), &mut pool, &mut balance);
    assert_eq!(first, Ok(2_000_000));
    assert_eq!(pool, 3_000_000);
    let second = claim_winnings(&market, &mut yes_bettor, key(2), key(10), &mut pool, &mut balance);
    assert_eq!(second, Err(ErrorCode::AlreadyClaimed));
    assert_eq!(pool, 3_000_000);
    assert_eq!(balance, 2_000_000);
    assert!(yes_bettor.claimed);
}

#[test]
fn oracle_reprices_without_touching_the_accounts() {
    let (mut market, _, _) = market_with_two_bets();
    assert_eq!(update_price(&mut market, key(1), 730_000), Ok(()));
    assert_eq!(market.current_yes_probability, 730_000);
    assert_eq!(market.total_yes_shares, 500_000);
    assert_eq!(market.total_no_shares, 500_000);
    assert_eq!(market.total_liquidity, 2_000_000);
    assert!(!market.resolved);
    assert_eq!(update_price(&mut market, key(1), 0), Ok(()));
    assert_eq!(market.current_yes_probability, 0);
    assert_eq!(update_price(&mut market, key(1), 1_000_000), Ok(()));
    assert_eq!(market.current_yes_probability, 1_000_000);
}

#[test]
fn next_bet_overrides_the_price_the_oracle_set() {
    let (mut market, mut yes_bettor, _) = market_with_two_bets();
    update_price(&mut market, key(1), 900_000).unwrap();
    place_bet(&mut market, &mut yes_bettor, key(2), key(10), 1_000_000, true, NOW + 30).unwrap();
    // 1_500_000 YES shares of 2_000_000 in all.
    assert_eq!(market.current_yes_probability, 750_000);
    assert_eq!(yes_bettor.yes_shares, 1_500_000);
    assert_eq!(yes_bettor.total_deposited, 1_500_000);
}

#[test]
fn phase_follows_the_clock_and_the_resolution() {
    let mut market = fresh_market();
    assert_eq!(market.phase(NOW), MarketPhase::Open);
    assert_eq!(market.phase(NOW + 3599), MarketPhase::Open);
    assert_eq!(market.phase(NOW + 3600), MarketPhase::Ended);
    assert_eq!(market.phase(i64::MAX), MarketPhase::Ended);
    resolve_market(&mut market, key(1), false, NOW + 3600).unwrap();
    assert_eq!(market.phase(NOW), MarketPhase::Resolved);
    assert_eq!(market.phase(NOW + 3600), MarketPhase::Resolved);
}

#[test]
fn stored_position_is_handed_back_unchanged() {
    let stored = UserPosition {
        market: key(2),
        user: key(10),
        yes_shares: 4,
        no_shares: 5,
        total_deposited: 9,
        claimed: true,
    };
    assert_eq!(UserPosition::get_or_create(Some(stored), key(3), key(12)), stored);
    let opened = UserPosition::get_or_create(None, key(3), key(12));
    assert_eq!(opened, UserPosition::new(key(3), key(12)));
    assert_eq!(opened.market, key(3));
    assert_eq!(opened.user, key(12));
    assert_eq!(opened.yes_shares, 0);
    assert_eq!(opened.no_shares, 0);
    assert_eq!(opened.total_deposited, 0);
    assert!(!opened.claimed);
    assert!(opened.is_held_by(&key(3), &key(12)));
    assert!(!opened.is_held_by(&key(3), &key(13)));
    assert!(!opened.is_held_by(&key(4), &key(12)));
}

#[test]
fn unwritten_record_holds_no_position() {
    let blank = UserPosition {
        market: Identity::new([0; 32]),
        user: Identity::new([0; 32]),
        yes_shares: 0,
        no_shares: 0,
        total_deposited: 0,
        claimed: false,
    };
    assert_eq!(UserPosition::existing(blank), None);
    assert!(blank.market.is_unset());
    let written = UserPosition::new(key(2), key(10));
    assert_eq!(UserPosition::existing(written), Some(written));
    assert!(!written.market.is_unset());
    // One byte is enough to name a market.
    let mut bytes = [0u8; 32];
    bytes[17] = 1;
    let named = UserPosition { market: Identity::new(bytes), ..blank };
    assert_eq!(UserPosition::existing(named), Some(named));
    // Only the market's key tells: the user's does not.
    let nameless = UserPosition { user: key(10), yes_shares: 3, ..blank };
    assert_eq!(UserPosition::existing(nameless), None);
    // A first bet through an unwritten record opens the position.
    let mut market = fresh_market();
    let mut position = UserPosition::get_or_create(UserPosition::existing(blank), key(2), key(10));
    assert_eq!(place_bet(&mut market, &mut position, key(2), key(10), 3, false, NOW), Ok(3));
    let mut position =
        UserPosition::get_or_create(UserPosition::existing(position), key(2), key(10));
    assert_eq!(place_bet(&mut market, &mut position, key(2), key(10), 4, false, NOW), Ok(4));
    assert_eq!(position.no_shares, 7);
    assert_eq!(position.total_deposited, 7);
}

#[test]
fn market_counts_each_side_apart() {
    let mut market = fresh_market();
    let mut position = UserPosition::new(key(2), key(10));
    place_bet(&mut market, &mut position, key(2), key(10), 30, true, NOW).unwrap();
    place_bet(&mut market, &mut position, key(2), key(10), 10, false, NOW).unwrap();
    assert_eq!(market.shares_held(true), 30);
    assert_eq!(market.shares_held(false), 10);
    assert_eq!(market.current_yes_probability, 750_000);
    assert_eq!(position.shares_held(true), 30);
    assert_eq!(position.shares_held(false), 10);
}

#[test]
fn getting_a_position_twice_gives_the_same_position() {
    let once = UserPosition::get_or_create(None, key(2), key(10));
    let twice = UserPosition::get_or_create(Some(once), key(2), key(10));
    assert_eq!(once, twice);
    let mut market = fresh_market();
    let mut held = once;
    place_bet(&mut market, &mut held, key(2), key(10), 9, true, NOW).unwrap();
    assert_eq!(UserPosition::get_or_create(Some(held), key(2), key(10)), held);
    assert_eq!(held.yes_shares, 9);
}
