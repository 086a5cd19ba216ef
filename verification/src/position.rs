//! The position ledger: what one participant holds in one market.

use vstd::prelude::*;
use crate::arith::checked_add;
use crate::error::ErrorCode;
use crate::identity::Identity;

verus! {

/// One participant's stake in one market.  Shares and deposits only grow,
/// and `claimed` goes from `false` to `true` once and never back.
#[derive(Clone, Copy, Debug, PartialEq, Eq)]
pub struct UserPosition {
    /// The market the position is held in.
    pub market: Identity,
    /// The participant who holds it.
    pub user: Identity,
    pub yes_shares: u64,
    pub no_shares: u64,
    /// Everything this participant has paid into the market's pool.
    pub total_deposited: u64,
    /// Whether the winnings of this position were paid out.
    pub claimed: bool,
}

impl UserPosition {
    /// A position as it is first opened: nothing held, nothing deposited,
    /// nothing claimed.
    pub open spec fn opened(market: Identity, user: Identity) -> UserPosition {
        UserPosition {
            market,
            user,
            yes_shares: 0,
            no_shares: 0,
            total_deposited: 0,
            claimed: false,
        }
    }

    /// Whether this is the position of `user` in `market`.
    pub open spec fn belongs_to(self, market: Identity, user: Identity) -> bool {
        self.market == market && self.user == user
    }

    /// The shares held on the side `outcome` names.
    pub open spec fn shares_on(self, outcome: bool) -> u64 {
        if outcome {
            self.yes_shares
        } else {
            self.no_shares
        }
    }

    /// Whether `shares` bought with `amount` can be added without a counter
    /// leaving 64 bits.
    pub open spec fn bet_fits(self, shares: u64, amount: u64, is_yes: bool) -> bool {
        &&& self.shares_on(is_yes) + shares <= u64::MAX
        &&& self.total_deposited + amount <= u64::MAX
    }

    /// The position after `shares` bought with `amount` were added on one
    /// side.
    pub open spec fn with_bet(self, shares: u64, amount: u64, is_yes: bool) -> UserPosition {
        UserPosition {
            yes_shares: if is_yes {
                (self.yes_shares + shares) as u64
            } else {
                self.yes_shares
            },
            no_shares: if is_yes {
                self.no_shares
            } else {
                (self.no_shares + shares) as u64
            },
            total_deposited: (self.total_deposited + amount) as u64,
            ..self
        }
    }

    /// The position with its winnings marked as paid.
    pub open spec fn settled(self) -> UserPosition {
        UserPosition { claimed: true, ..self }
    }

    /// Opens the position of `user` in `market`.
    pub fn new(market: Identity, user: Identity) -> (position: UserPosition)
        ensures
            position == UserPosition::opened(market, user),
    {
        UserPosition {
            market,
            user,
            yes_shares: 0,
            no_shares: 0,
            total_deposited: 0,
            claimed: false,
        }
    }

    /// Reads a record as the store keeps it.  A record that names no
    /// market is one the store has allocated and nobody has opened: it
    /// holds no position.  Any other record is the position it shows.
    pub fn existing(record: UserPosition) -> (position: Option<UserPosition>)
        ensures
            position == (if record.market.unset() {
                None
            } else {
                Some(record)
            }),
    {
        if record.market.is_unset() {
            None
        } else {
            Some(record)
        }
    }

    /// The position to bet with: the stored one where the store holds one,
    /// returned as it is, and a newly opened one where it holds none.  A
    /// stored position is never reset.
    pub fn get_or_create(
        existing: Option<UserPosition>,
        market: Identity,
        user: Identity,
    ) -> (position: UserPosition)
        ensures
            existing matches Some(stored) ==> position == stored,
            existing is None ==> position == UserPosition::opened(market, user),
    {
        match existing {
            Some(stored) => stored,
            None => UserPosition::new(market, user),
        }
    }

    /// Whether this is the position of `user` in `market`.
    pub fn is_held_by(&self, market: &Identity, user: &Identity) -> (held: bool)
        ensures
            held == self.belongs_to(*market, *user),
    {
        self.market.same_as(market) && self.user.same_as(user)
    }

    /// The shares held on the side `outcome` names.
    pub fn shares_held(&self, outcome: bool) -> (shares: u64)
        ensures
            shares == self.shares_on(outcome),
    {
        if outcome {
            self.yes_shares
        } else {
            self.no_shares
        }
    }

    /// Adds `shares` to the counter of one side and `amount` to the
    /// deposits.  Where either sum leaves 64 bits the call fails with
    /// `ArithmeticOverflow` and the position is unchanged.
    pub fn record_bet(&mut self, shares: u64, amount: u64, is_yes: bool) -> (recorded:
        Result<(), ErrorCode>)
        ensures
            match recorded {
                Ok(_) => old(self).bet_fits(shares, amount, is_yes)
                    && *final(self) == old(self).with_bet(shares, amount, is_yes),
                Err(fault) => !old(self).bet_fits(shares, amount, is_yes)
                    && fault == ErrorCode::ArithmeticOverflow
                    && *final(self) == *old(self),
            },
    {
        let side = checked_add(self.shares_held(is_yes), shares)?;
        let deposited = checked_add(self.total_deposited, amount)?;
        if is_yes {
            self.yes_shares = side;
        } else {
            self.no_shares = side;
        }
        self.total_deposited = deposited;
        Ok(())
    }
}

} // verus!
