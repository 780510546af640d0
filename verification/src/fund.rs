//! The fund record and the errors of the vault.

use vstd::prelude::*;
use crate::address::Address;
use crate::date::CalendarDate;

verus! {

/// Why an operation of the vault was refused. A refused operation leaves
/// every record and every balance as it was.
#[derive(Clone, Copy, Debug, PartialEq, Eq, Structural)]
pub enum Error {
    /// The address already holds a record.
    AlreadyExists,
    /// The address holds no record, or one that has been closed.
    NotFound,
    /// The due date is not a calendar date.
    InvalidDate,
    /// The requester is not the fund's creator.
    Unauthorized,
    /// The fund is locked and its due date has not come.
    Locked,
    /// The amount is zero or exceeds the fund's balance.
    InvalidAmount,
    /// The withdrawal would leave less than the reserved minimum.
    BelowReserve,
    /// The paying side holds less than the amount.
    InsufficientFunds,
    /// The change would break an invariant of the record.
    InvariantViolated,
}

/// One crowdfunding campaign: its metadata and what it holds.
#[derive(Debug)]
pub struct Fund {
    /// The only identity that may withdraw.
    pub creator: Address,
    pub name: String,
    pub description: String,
    /// The day from which a locked fund can be withdrawn from.
    pub due_date: CalendarDate,
    /// Seconds since 1970-01-01 UTC at which the record was made.
    pub date_created: i64,
    /// Everything ever donated. Withdrawals do not lower it.
    pub total_donated: u64,
    /// The campaign's target. Reaching it changes nothing.
    pub goal_amount: u64,
    /// False once the fund has been withdrawn in full. It never turns true
    /// again.
    pub is_active: bool,
    /// Whether withdrawal waits for the due date.
    pub is_locked: bool,
    /// What the fund holds now.
    pub current_balance: u64,
}

/// The mathematical content of a fund record.
pub ghost struct FundView {
    pub creator: Seq<u8>,
    pub name: Seq<char>,
    pub description: Seq<char>,
    pub due_date: CalendarDate,
    pub date_created: int,
    pub total_donated: nat,
    pub goal_amount: nat,
    pub is_active: bool,
    pub is_locked: bool,
    pub current_balance: nat,
}

impl FundView {
    /// The balance never exceeds what was donated, and a closed fund holds
    /// nothing.
    pub open spec fn well_formed(self) -> bool {
        &&& self.current_balance <= self.total_donated
        &&& !self.is_active ==> self.current_balance == 0
    }

    /// What never changes once the record exists.
    pub open spec fn same_identity_as(self, other: FundView) -> bool {
        &&& self.creator == other.creator
        &&& self.name == other.name
        &&& self.description == other.description
        &&& self.due_date == other.due_date
        &&& self.date_created == other.date_created
        &&& self.goal_amount == other.goal_amount
        &&& self.is_locked == other.is_locked
    }

    /// Whether `next` may replace `self` in the store: the metadata is kept,
    /// the donation counter has not dropped, a closed fund is left alone, and
    /// the new record is well formed.
    pub open spec fn may_become(self, next: FundView) -> bool {
        &&& self.same_identity_as(next)
        &&& self.total_donated <= next.total_donated
        &&& !self.is_active ==> next == self
        &&& next.well_formed()
    }
}

impl View for Fund {
    type V = FundView;

    open spec fn view(&self) -> FundView {
        FundView {
            creator: self.creator@,
            name: self.name@,
            description: self.description@,
            due_date: self.due_date,
            date_created: self.date_created as int,
            total_donated: self.total_donated as nat,
            goal_amount: self.goal_amount as nat,
            is_active: self.is_active,
            is_locked: self.is_locked,
            current_balance: self.current_balance as nat,
        }
    }
}

impl Clone for Fund {
    fn clone(&self) -> (copy: Fund)
        ensures
            copy@ == self@,
    {
        Fund {
            creator: self.creator,
            name: self.name.clone(),
            description: self.description.clone(),
            due_date: self.due_date,
            date_created: self.date_created,
            total_donated: self.total_donated,
            goal_amount: self.goal_amount,
            is_active: self.is_active,
            is_locked: self.is_locked,
            current_balance: self.current_balance,
        }
    }
}

impl Fund {
    /// Whether the record satisfies its invariant.
    pub fn is_well_formed(&self) -> (ok: bool)
        ensures
            ok == self@.well_formed(),
    {
        self.current_balance <= self.total_donated && (self.is_active || self.current_balance == 0)
    }

    /// Whether `next` may replace this record in the store.
    pub fn may_become(&self, next: &Fund) -> (ok: bool)
        ensures
            ok == self@.may_become(next@),
    {
        let same = self.creator.same_as(&next.creator) && self.name == next.name
            && self.description == next.description && self.due_date == next.due_date
            && self.date_created == next.date_created && self.goal_amount == next.goal_amount
            && self.is_locked == next.is_locked;
        let frozen = self.is_active || (!next.is_active && self.total_donated == next.total_donated
            && self.current_balance == next.current_balance);
        let ok = same && self.total_donated <= next.total_donated && frozen
            && next.is_well_formed();
        proof {
            if same && !self.is_active && frozen {
                assert(next@ == self@);
            }
        }
        ok
    }
}

} // verus!
