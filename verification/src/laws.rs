//! What holds of every market, whatever is done with it.
//!
//! Each law is stated over the book of a market and the steps taken on it,
//! in the terms of the contracts of the operations themselves, and proved
//! of every book and every sequence of steps.

use vstd::prelude::*;
use crate::book::{
    deposited,
    held,
    lemma_payments_bounded,
    lemma_sum_covers,
    lemma_sum_push,
    lemma_sum_update,
    lemma_sum_zero,
    paid_by,
    sum_over,
    Book,
    Step,
};
use crate::error::ErrorCode;
use crate::identity::Identity;
use crate::market::{creation_fault, Market};
use crate::position::UserPosition;
use crate::pricing::{lemma_probability_bounded, shares_for, PROBABILITY_SCALE};
use crate::settlement::{claim_fault, payout_of};

verus! {

/// The book of a market as `create_market` makes it is consistent.
pub proof fn law_new_book_is_consistent(
    market_id: Identity,
    creator: Identity,
    question: String,
    liquidity_param: u64,
    end_time: i64,
    now: i64,
)
    requires
        creation_fault(question@, liquidity_param, end_time, now) is None,
    ensures
        Book::opened(
            market_id,
            Market::created(creator, question, liquidity_param, end_time, now),
        ).consistent(),
{
}

/// Where no position is claimed, the market has paid nothing.
proof fn lemma_nothing_claimed_nothing_paid(positions: Seq<UserPosition>, market: Market)
    requires
        forall|i: int| 0 <= i < positions.len() ==> !(#[trigger] positions[i]).claimed,
    ensures
        sum_over(positions, paid_by(market)) == 0,
{
    assert forall|i: int| 0 <= i < positions.len() implies paid_by(market)(
        #[trigger] positions[i],
    ) == 0 by {}
    lemma_sum_zero(positions, paid_by(market));
}

/// No step, taken or refused, leaves the accounts of a book in
/// disagreement.
pub proof fn law_step_keeps_consistency(book: Book, step: Step)
    requires
        book.consistent(),
    ensures
        book.after(step).consistent(),
{
    let next = book.after(step);
    if book.accepts(step) {
        match step {
            Step::Bet { slot, user, amount, is_yes, now } => {
                let shares = shares_for(
                    amount,
                    is_yes,
                    book.market.total_yes_shares,
                    book.market.total_no_shares,
                    book.market.liquidity_param,
                );
                let before = book.position_for(slot, user);
                let staked = before.with_bet(shares, amount, is_yes);
                if 0 <= slot < book.positions.len() {
                    lemma_sum_update(book.positions, held(true), slot, staked);
                    lemma_sum_update(book.positions, held(false), slot, staked);
                    lemma_sum_update(book.positions, deposited(), slot, staked);
                } else {
                    lemma_sum_push(book.positions, held(true), staked);
                    lemma_sum_push(book.positions, held(false), staked);
                    lemma_sum_push(book.positions, deposited(), staked);
                }
                assert(!before.claimed);
                assert forall|i: int| 0 <= i < next.positions.len() implies !(
                    #[trigger] next.positions[i]
                ).claimed by {
                    if i != slot && i < book.positions.len() {
                        assert(next.positions[i] == book.positions[i]);
                    }
                }
                lemma_nothing_claimed_nothing_paid(book.positions, book.market);
                lemma_nothing_claimed_nothing_paid(next.positions, next.market);
                lemma_probability_bounded(next.market.total_yes_shares, next.market.total_no_shares);
            },
            Step::Reprice { caller, probability } => {
                lemma_nothing_claimed_nothing_paid(book.positions, book.market);
                lemma_nothing_claimed_nothing_paid(next.positions, next.market);
            },
            Step::Resolve { caller, outcome, now } => {
                lemma_nothing_claimed_nothing_paid(book.positions, book.market);
                lemma_nothing_claimed_nothing_paid(next.positions, next.market);
            },
            Step::Claim { slot, caller, balance } => {
                let before = book.positions[slot];
                let settled = before.settled();
                lemma_sum_update(book.positions, held(true), slot, settled);
                lemma_sum_update(book.positions, held(false), slot, settled);
                lemma_sum_update(book.positions, deposited(), slot, settled);
                lemma_sum_update(book.positions, paid_by(book.market), slot, settled);
            },
        }
    }
}

/// The accounts of a book agree after any sequence of steps, if they
/// agreed before it.
pub proof fn law_steps_keep_consistency(book: Book, steps: Seq<Step>)
    requires
        book.consistent(),
    ensures
        book.after_all(steps).consistent(),
    decreases steps.len(),
{
    if steps.len() > 0 {
        law_steps_keep_consistency(book, steps.drop_last());
        law_step_keeps_consistency(book.after_all(steps.drop_last()), steps.last());
    }
}

/// Value is conserved: through any sequence of steps, the pool total of a
/// market grows by exactly the amounts of the bets that were taken, and its
/// liquidity parameter stays what it was.
pub proof fn law_value_is_conserved(book: Book, steps: Seq<Step>)
    ensures
        book.after_all(steps).market.total_liquidity == book.market.total_liquidity
            + book.deposits_of(steps),
        book.after_all(steps).market.liquidity_param == book.market.liquidity_param,
    decreases steps.len(),
{
    if steps.len() > 0 {
        law_value_is_conserved(book, steps.drop_last());
    }
}

/// Value is conserved from the start: after any sequence of steps on a
/// market as `create_market` makes it, the pool total is the liquidity
/// parameter plus the amounts of all bets that were taken.
pub proof fn law_value_is_conserved_since_creation(
    market_id: Identity,
    creator: Identity,
    question: String,
    liquidity_param: u64,
    end_time: i64,
    now: i64,
    steps: Seq<Step>,
)
    ensures
        ({
            let book = Book::opened(
                market_id,
                Market::created(creator, question, liquidity_param, end_time, now),
            );
            book.after_all(steps).market.total_liquidity == liquidity_param + book.deposits_of(
                steps,
            )
        }),
{
    law_value_is_conserved(
        Book::opened(market_id, Market::created(creator, question, liquidity_param, end_time, now)),
        steps,
    );
}

/// A probability within the scale stays within the scale through any
/// sequence of steps.
pub proof fn law_probability_stays_in_range(book: Book, steps: Seq<Step>)
    requires
        book.market.current_yes_probability <= PROBABILITY_SCALE,
    ensures
        0 <= book.after_all(steps).market.current_yes_probability <= PROBABILITY_SCALE,
    decreases steps.len(),
{
    if steps.len() > 0 {
        law_probability_stays_in_range(book, steps.drop_last());
        let before = book.after_all(steps.drop_last());
        let after = before.after(steps.last());
        lemma_probability_bounded(after.market.total_yes_shares, after.market.total_no_shares);
    }
}

/// No sequence of steps lowers the share total of either side.
pub proof fn law_shares_never_decrease(book: Book, steps: Seq<Step>)
    ensures
        book.after_all(steps).market.total_yes_shares >= book.market.total_yes_shares,
        book.after_all(steps).market.total_no_shares >= book.market.total_no_shares,
    decreases steps.len(),
{
    if steps.len() > 0 {
        law_shares_never_decrease(book, steps.drop_last());
    }
}

/// A resolved market stays resolved, and more: no step changes its record
/// at all, so its outcome and the pool total recorded when it was resolved
/// stand for good.
pub proof fn law_resolution_is_final(book: Book, steps: Seq<Step>)
    requires
        book.market.resolved,
    ensures
        book.after_all(steps).market == book.market,
    decreases steps.len(),
{
    if steps.len() > 0 {
        law_resolution_is_final(book, steps.drop_last());
    }
}

/// Through any sequence of steps a position keeps its slot, and one that
/// is claimed stays claimed.
pub proof fn law_claim_is_final(book: Book, steps: Seq<Step>, slot: int)
    requires
        0 <= slot < book.positions.len(),
    ensures
        slot < book.after_all(steps).positions.len(),
        book.positions[slot].claimed ==> book.after_all(steps).positions[slot].claimed,
    decreases steps.len(),
{
    if steps.len() > 0 {
        law_claim_is_final(book, steps.drop_last(), slot);
    }
}

/// In a book whose accounts agree, all payouts made together never exceed
/// the pool total of the market, and so the pool is never overdrawn.
pub proof fn law_payouts_within_pool(book: Book)
    requires
        book.consistent(),
    ensures
        0 <= book.paid <= book.market.total_liquidity,
        0 <= book.pool() <= book.market.total_liquidity,
{
    lemma_payments_bounded(book.market, book.positions);
}

/// After any sequence of steps on a book whose accounts agreed, all
/// payouts made never exceed the pool total of the market; and once the
/// market is resolved that total is the one recorded at resolution.
pub proof fn law_payouts_stay_within_pool(book: Book, steps: Seq<Step>)
    requires
        book.consistent(),
    ensures
        0 <= book.after_all(steps).paid <= book.after_all(steps).market.total_liquidity,
        book.market.resolved ==> book.after_all(steps).paid <= book.market.total_liquidity,
{
    law_steps_keep_consistency(book, steps);
    law_payouts_within_pool(book.after_all(steps));
    if book.market.resolved {
        law_resolution_is_final(book, steps);
    }
}

/// After any sequence of steps on a market as `create_market` makes it,
/// the accounts of its book agree, and all payouts made never exceed its
/// pool total.
pub proof fn law_payouts_within_pool_since_creation(
    market_id: Identity,
    creator: Identity,
    question: String,
    liquidity_param: u64,
    end_time: i64,
    now: i64,
    steps: Seq<Step>,
)
    requires
        creation_fault(question@, liquidity_param, end_time, now) is None,
    ensures
        ({
            let book = Book::opened(
                market_id,
                Market::created(creator, question, liquidity_param, end_time, now),
            );
            &&& book.after_all(steps).consistent()
            &&& 0 <= book.after_all(steps).paid <= book.after_all(steps).market.total_liquidity
        }),
{
    let book = Book::opened(
        market_id,
        Market::created(creator, question, liquidity_param, end_time, now),
    );
    law_new_book_is_consistent(market_id, creator, question, liquidity_param, end_time, now);
    law_payouts_stay_within_pool(book, steps);
    law_steps_keep_consistency(book, steps);
}

/// The pool covers every claim: in a book whose accounts agree, a position
/// with winning shares that is not yet claimed is owed no more than the
/// pool holds, and the market counts winning shares.  So a claim on such a
/// book never fails for want of funds, nor on the state of the market.
pub proof fn law_pool_covers_every_claim(book: Book, slot: int)
    requires
        book.consistent(),
        0 <= slot < book.positions.len(),
        book.market.resolved,
        !book.positions[slot].claimed,
        book.positions[slot].shares_on(book.market.outcome) > 0,
    ensures
        book.market.shares_on(book.market.outcome) > 0,
        0 <= payout_of(book.market, book.positions[slot]) <= book.pool(),
{
    let position = book.positions[slot];
    let settled = position.settled();
    let claimed = book.positions.update(slot, settled);
    assert forall|i: int| 0 <= i < book.positions.len() implies 0 <= held(book.market.outcome)(
        #[trigger] book.positions[i],
    ) by {}
    lemma_sum_covers(book.positions, held(book.market.outcome), slot);
    lemma_sum_update(book.positions, held(book.market.outcome), slot, settled);
    lemma_sum_update(book.positions, paid_by(book.market), slot, settled);
    lemma_payments_bounded(book.market, claimed);
    lemma_payments_bounded(book.market, book.positions);
}

/// Nothing is paid twice: after a claim that succeeded, a second claim on
/// the same position is refused as already claimed, whatever the pool and
/// the balance hold by then.
pub proof fn law_nothing_is_paid_twice(
    market: Market,
    position: UserPosition,
    market_id: Identity,
    caller: Identity,
    pool: u64,
    balance: u64,
    pool_after: u64,
    balance_after: u64,
)
    requires
        claim_fault(market, position, market_id, caller, pool, balance) is None,
    ensures
        claim_fault(market, position.settled(), market_id, caller, pool_after, balance_after)
            == Some(ErrorCode::AlreadyClaimed),
{
}

/// Nothing is paid twice, in the book: once a claim on a position has been
/// paid, a second claim on it by the same caller is refused, whatever the
/// caller's balance, and leaves the book as it is: positions, payouts and
/// pool.
pub proof fn law_second_claim_changes_nothing(
    book: Book,
    slot: int,
    caller: Identity,
    balance: u64,
    balance_after: u64,
)
    requires
        book.accepts((Step::Claim { slot, caller, balance })),
    ensures
        ({
            let paid = book.after(Step::Claim { slot, caller, balance });
            let again = Step::Claim { slot, caller, balance: balance_after };
            &&& !paid.accepts(again)
            &&& paid.after(again) == paid
            &&& paid.after(again).pool() == paid.pool()
        }),
{
}

} // verus!
