//! The book of one market: the market's record together with every
//! position held in it and the value its pool has paid out.
//!
//! The book is ghost state: nothing at run time holds one.  It is the state
//! over which the operations of the engine are read as steps, so that what
//! holds of every state the engine can reach is stated once and proved of
//! every step.

use vstd::prelude::*;
use crate::arith::lemma_ratio_floor;
use crate::identity::Identity;
use crate::market::{bet_fault, reprice_fault, resolution_fault, Market};
use crate::position::UserPosition;
use crate::pricing::shares_for;
use crate::settlement::{claim_fault, payout_of};

verus! {

/// The sum of `measure` over all `positions`.
pub open spec fn sum_over(positions: Seq<UserPosition>, measure: spec_fn(UserPosition) -> int) -> int
    decreases positions.len(),
{
    if positions.len() == 0 {
        0
    } else {
        sum_over(positions.drop_last(), measure) + measure(positions.last())
    }
}

/// Measures a position by the shares it holds on the side `outcome` names.
pub open spec fn held(outcome: bool) -> spec_fn(UserPosition) -> int {
    |position: UserPosition| position.shares_on(outcome) as int
}

/// Measures a position by what its holder has deposited.
pub open spec fn deposited() -> spec_fn(UserPosition) -> int {
    |position: UserPosition| position.total_deposited as int
}

/// What `market` has paid to a position: its payout once it is claimed, and
/// nothing before, nor ever to a position without winning shares.
pub open spec fn paid_to(market: Market, position: UserPosition) -> int {
    if position.claimed && position.shares_on(market.outcome) > 0 {
        payout_of(market, position)
    } else {
        0
    }
}

/// Measures a position by what `market` has paid to it.
pub open spec fn paid_by(market: Market) -> spec_fn(UserPosition) -> int {
    |position: UserPosition| paid_to(market, position)
}

/// Adding a position adds its measure to the sum.
pub proof fn lemma_sum_push(
    positions: Seq<UserPosition>,
    measure: spec_fn(UserPosition) -> int,
    added: UserPosition,
)
    ensures
        sum_over(positions.push(added), measure) == sum_over(positions, measure) + measure(added),
{
    assert(positions.push(added).drop_last() =~= positions);
}

/// Replacing a position changes the sum by the difference of the measures.
pub proof fn lemma_sum_update(
    positions: Seq<UserPosition>,
    measure: spec_fn(UserPosition) -> int,
    slot: int,
    replaced: UserPosition,
)
    requires
        0 <= slot < positions.len(),
    ensures
        sum_over(positions.update(slot, replaced), measure) == sum_over(positions, measure) - measure(
            positions[slot],
        ) + measure(replaced),
    decreases positions.len(),
{
    let updated = positions.update(slot, replaced);
    if slot == positions.len() - 1 {
        assert(updated.drop_last() =~= positions.drop_last());
    } else {
        assert(updated.drop_last() =~= positions.drop_last().update(slot, replaced));
        lemma_sum_update(positions.drop_last(), measure, slot, replaced);
    }
}

/// Under a measure that is zero on every position, the sum is zero.
pub proof fn lemma_sum_zero(positions: Seq<UserPosition>, measure: spec_fn(UserPosition) -> int)
    requires
        forall|i: int| 0 <= i < positions.len() ==> measure(#[trigger] positions[i]) == 0,
    ensures
        sum_over(positions, measure) == 0,
    decreases positions.len(),
{
    if positions.len() > 0 {
        let front = positions.drop_last();
        assert forall|i: int| 0 <= i < front.len() implies measure(#[trigger] front[i]) == 0 by {
            assert(front[i] == positions[i]);
        }
        lemma_sum_zero(front, measure);
    }
}

/// Under a measure that is never negative, no position measures more than
/// the sum, and the sum is not negative.
pub proof fn lemma_sum_covers(
    positions: Seq<UserPosition>,
    measure: spec_fn(UserPosition) -> int,
    slot: int,
)
    requires
        forall|i: int| 0 <= i < positions.len() ==> 0 <= measure(#[trigger] positions[i]),
        0 <= slot < positions.len(),
    ensures
        0 <= measure(positions[slot]) <= sum_over(positions, measure),
    decreases positions.len(),
{
    let front = positions.drop_last();
    assert forall|i: int| 0 <= i < front.len() implies 0 <= measure(#[trigger] front[i]) by {
        assert(front[i] == positions[i]);
    }
    lemma_sum_nonnegative(front, measure);
    if slot < positions.len() - 1 {
        lemma_sum_covers(front, measure, slot);
        assert(front[slot] == positions[slot]);
    }
}

/// Under a measure that is never negative, the sum is not negative.
pub proof fn lemma_sum_nonnegative(
    positions: Seq<UserPosition>,
    measure: spec_fn(UserPosition) -> int,
)
    requires
        forall|i: int| 0 <= i < positions.len() ==> 0 <= measure(#[trigger] positions[i]),
    ensures
        0 <= sum_over(positions, measure),
    decreases positions.len(),
{
    if positions.len() > 0 {
        let front = positions.drop_last();
        assert forall|i: int| 0 <= i < front.len() implies 0 <= measure(#[trigger] front[i]) by {
            assert(front[i] == positions[i]);
        }
        lemma_sum_nonnegative(front, measure);
    }
}

/// What a market has paid to a set of positions, times the winning shares
/// it counts, is at most its pool total times the winning shares the
/// positions hold: each payout is a floored share of the pool.
pub proof fn lemma_payments_scaled(market: Market, positions: Seq<UserPosition>)
    requires
        market.shares_on(market.outcome) > 0,
    ensures
        0 <= sum_over(positions, paid_by(market)),
        0 <= sum_over(positions, held(market.outcome)),
        sum_over(positions, paid_by(market)) * market.shares_on(market.outcome) <= sum_over(
            positions,
            held(market.outcome),
        ) * market.total_liquidity,
    decreases positions.len(),
{
    if positions.len() > 0 {
        let front = positions.drop_last();
        let last = positions.last();
        lemma_payments_scaled(market, front);
        let won = last.shares_on(market.outcome) as int;
        let counted = market.shares_on(market.outcome) as int;
        let pool_total = market.total_liquidity as int;
        let paid_last = paid_to(market, last);
        let paid_front = sum_over(front, paid_by(market));
        let won_front = sum_over(front, held(market.outcome));
        lemma_ratio_floor(won, pool_total, counted);
        assert(0 <= won * pool_total) by (nonlinear_arith)
            requires
                0 <= won,
                0 <= pool_total,
        ;
        assert(0 <= paid_last && paid_last * counted <= won * pool_total);
        assert((paid_front + paid_last) * counted <= (won_front + won) * pool_total)
            by (nonlinear_arith)
            requires
                paid_front * counted <= won_front * pool_total,
                paid_last * counted <= won * pool_total,
        ;
        assert(sum_over(positions, paid_by(market)) == paid_front + paid_last);
        assert(sum_over(positions, held(market.outcome)) == won_front + won);
    } else {
        let counted = market.shares_on(market.outcome) as int;
        let pool_total = market.total_liquidity as int;
        assert(0 * counted <= 0 * pool_total) by (nonlinear_arith);
    }
}

/// What a market has paid to a set of positions never exceeds its pool
/// total, as long as the positions hold no more winning shares than the
/// market counts.
pub proof fn lemma_payments_bounded(market: Market, positions: Seq<UserPosition>)
    requires
        sum_over(positions, held(market.outcome)) <= market.shares_on(market.outcome),
    ensures
        0 <= sum_over(positions, paid_by(market)) <= market.total_liquidity,
{
    let counted = market.shares_on(market.outcome) as int;
    let pool_total = market.total_liquidity as int;
    let paid = sum_over(positions, paid_by(market));
    let won = sum_over(positions, held(market.outcome));
    if counted > 0 {
        lemma_payments_scaled(market, positions);
        assert(paid <= pool_total) by (nonlinear_arith)
            requires
                paid * counted <= won * pool_total,
                0 <= won <= counted,
                0 < counted,
                0 <= pool_total,
        ;
    } else {
        assert forall|i: int| 0 <= i < positions.len() implies paid_by(market)(
            #[trigger] positions[i],
        ) == 0 by {
            lemma_sum_covers(positions, held(market.outcome), i);
        }
        lemma_sum_zero(positions, paid_by(market));
    }
}

/// One market with all that is held in it.
pub struct Book {
    /// The name the market goes by.
    pub market_id: Identity,
    pub market: Market,
    /// Every position opened in the market, each in a slot of its own.
    pub positions: Seq<UserPosition>,
    /// The sum of all payouts made so far.
    pub paid: int,
}

/// One call of an operation of the engine, read as a step of a book.
pub enum Step {
    /// `place_bet` by `user`, with the position in `slot`; a slot that
    /// holds no position stands for one opened for this bet.
    Bet { slot: int, user: Identity, amount: u64, is_yes: bool, now: i64 },
    /// `update_price` by `caller`.
    Reprice { caller: Identity, probability: u64 },
    /// `resolve_market` by `caller`.
    Resolve { caller: Identity, outcome: bool, now: i64 },
    /// `claim_winnings` by `caller`, with the position in `slot`, into a
    /// balance of `balance`.
    Claim { slot: int, caller: Identity, balance: u64 },
}

impl Book {
    /// The book of a market that was just created: no positions, nothing
    /// paid.
    pub open spec fn opened(market_id: Identity, market: Market) -> Book {
        Book { market_id, market, positions: Seq::empty(), paid: 0 }
    }

    /// What the pool holds: everything paid in, less everything paid out.
    pub open spec fn pool(self) -> int {
        self.market.total_liquidity - self.paid
    }

    /// The position a bet of `user` is placed with: the one in `slot`, or a
    /// newly opened one where `slot` holds none.
    pub open spec fn position_for(self, slot: int, user: Identity) -> UserPosition {
        if 0 <= slot < self.positions.len() {
            self.positions[slot]
        } else {
            UserPosition::opened(self.market_id, user)
        }
    }

    /// The positions with `position` stored in `slot`, or added at the end
    /// where `slot` holds none.
    pub open spec fn stored(self, slot: int, position: UserPosition) -> Seq<UserPosition> {
        if 0 <= slot < self.positions.len() {
            self.positions.update(slot, position)
        } else {
            self.positions.push(position)
        }
    }

    /// Whether the operation that `step` stands for succeeds on this book.
    pub open spec fn accepts(self, step: Step) -> bool {
        match step {
            Step::Bet { slot, user, amount, is_yes, now } => bet_fault(
                self.market,
                self.position_for(slot, user),
                self.market_id,
                user,
                amount,
                is_yes,
                now,
            ) is None,
            Step::Reprice { caller, probability } => reprice_fault(self.market, caller, probability)
                is None,
            Step::Resolve { caller, outcome, now } => resolution_fault(self.market, caller, now)
                is None,
            Step::Claim { slot, caller, balance } => 0 <= slot < self.positions.len() && 0
                <= self.pool() <= u64::MAX && claim_fault(
                self.market,
                self.positions[slot],
                self.market_id,
                caller,
                self.pool() as u64,
                balance,
            ) is None,
        }
    }

    /// The book after `step`: changed as the operation changes its records
    /// where it succeeds, and unchanged where it is refused.
    pub open spec fn after(self, step: Step) -> Book {
        if !self.accepts(step) {
            self
        } else {
            match step {
                Step::Bet { slot, user, amount, is_yes, now } => {
                    let shares = shares_for(
                        amount,
                        is_yes,
                        self.market.total_yes_shares,
                        self.market.total_no_shares,
                        self.market.liquidity_param,
                    );
                    let position = self.position_for(slot, user);
                    Book {
                        market: self.market.with_bet(shares, amount, is_yes),
                        positions: self.stored(slot, position.with_bet(shares, amount, is_yes)),
                        ..self
                    }
                },
                Step::Reprice { caller, probability } => Book {
                    market: self.market.repriced(probability),
                    ..self
                },
                Step::Resolve { caller, outcome, now } => Book {
                    market: self.market.resolved_to(outcome),
                    ..self
                },
                Step::Claim { slot, caller, balance } => Book {
                    positions: self.positions.update(slot, self.positions[slot].settled()),
                    paid: self.paid + payout_of(self.market, self.positions[slot]),
                    ..self
                },
            }
        }
    }

    /// What `step` pays into the pool: the amount of a bet that is taken.
    pub open spec fn deposit_of(self, step: Step) -> int {
        match step {
            Step::Bet { slot, user, amount, is_yes, now } => if self.accepts(step) {
                amount as int
            } else {
                0
            },
            _ => 0,
        }
    }

    /// The book after all of `steps`, in their order.
    pub open spec fn after_all(self, steps: Seq<Step>) -> Book
        decreases steps.len(),
    {
        if steps.len() == 0 {
            self
        } else {
            self.after_all(steps.drop_last()).after(steps.last())
        }
    }

    /// What all of `steps`, in their order, pay into the pool.
    pub open spec fn deposits_of(self, steps: Seq<Step>) -> int
        decreases steps.len(),
    {
        if steps.len() == 0 {
            0
        } else {
            self.deposits_of(steps.drop_last()) + self.after_all(steps.drop_last()).deposit_of(
                steps.last(),
            )
        }
    }

    /// The accounts of the book agree: the market's share totals are what
    /// the positions hold, its pool total is the creator's reserve and what
    /// the positions deposited, what was paid out is what the claimed
    /// positions were owed, and no position is claimed in an unresolved
    /// market.
    pub open spec fn consistent(self) -> bool {
        &&& self.market.wf()
        &&& sum_over(self.positions, held(true)) == self.market.total_yes_shares
        &&& sum_over(self.positions, held(false)) == self.market.total_no_shares
        &&& self.market.liquidity_param + sum_over(self.positions, deposited())
            == self.market.total_liquidity
        &&& self.paid == sum_over(self.positions, paid_by(self.market))
        &&& forall|i: int|
            0 <= i < self.positions.len() ==> (#[trigger] self.positions[i]).claimed
                ==> self.market.resolved
    }
}

} // verus!
