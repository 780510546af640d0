//! What holds of the vault over any run of operations.
//!
//! The statements here speak of the same predicates as the contracts of
//! [`crate::engine`]: [`donation`] relates the store before a call of
//! `donate` to the store after it, and [`withdrawal`] does so for `withdraw`.

use vstd::prelude::*;
use crate::date::CalendarDate;
use crate::engine::{
    after_donate, after_withdraw, create_error, donate_error, donation, opened_fund, record_at,
    withdraw_error, withdrawal,
};
use crate::fund::{Error, FundView};

verus! {

/// One call on a fund: a donation or a withdrawal, with what the caller
/// brought to it.
pub ghost enum Step {
    Donate { donor_balance: nat, amount: nat },
    Withdraw { requester: Seq<u8>, requester_balance: nat, amount: nat, today: CalendarDate },
}

impl Step {
    /// Whether the vault accepts this call on `record`.
    pub open spec fn accepted(self, record: FundView, reserved_minimum: nat) -> bool {
        match self {
            Step::Donate { donor_balance, amount } => donate_error(
                Some(record),
                donor_balance,
                amount,
            ) is None,
            Step::Withdraw { requester, requester_balance, amount, today } => withdraw_error(
                Some(record),
                requester,
                requester_balance,
                amount,
                today,
                reserved_minimum,
            ) is None,
        }
    }

    /// The record after this call: changed where the call is accepted, and
    /// as before where it is refused.
    pub open spec fn apply(self, record: FundView, reserved_minimum: nat) -> FundView {
        if !self.accepted(record, reserved_minimum) {
            record
        } else {
            match self {
                Step::Donate { amount, .. } => after_donate(record, amount),
                Step::Withdraw { amount, .. } => after_withdraw(record, amount),
            }
        }
    }

    /// What this call adds to the fund: the amount of an accepted donation.
    pub open spec fn paid_in(self, record: FundView, reserved_minimum: nat) -> nat {
        match self {
            Step::Donate { amount, .. } if self.accepted(record, reserved_minimum) => amount,
            _ => 0,
        }
    }

    /// What this call takes from the fund: the amount of an accepted
    /// withdrawal.
    pub open spec fn paid_out(self, record: FundView, reserved_minimum: nat) -> nat {
        match self {
            Step::Withdraw { amount, .. } if self.accepted(record, reserved_minimum) => amount,
            _ => 0,
        }
    }
}

/// The record after the calls `steps`, made in order on `record`.
pub open spec fn run(record: FundView, steps: Seq<Step>, reserved_minimum: nat) -> FundView
    decreases steps.len(),
{
    if steps.len() == 0 {
        record
    } else {
        steps.last().apply(run(record, steps.drop_last(), reserved_minimum), reserved_minimum)
    }
}

/// The sum of the donations that were accepted in the run of `steps` on
/// `record`.
pub open spec fn donated(record: FundView, steps: Seq<Step>, reserved_minimum: nat) -> nat
    decreases steps.len(),
{
    if steps.len() == 0 {
        0
    } else {
        donated(record, steps.drop_last(), reserved_minimum) + steps.last().paid_in(
            run(record, steps.drop_last(), reserved_minimum),
            reserved_minimum,
        )
    }
}

/// The sum of the withdrawals that were accepted in the run of `steps` on
/// `record`.
pub open spec fn withdrawn(record: FundView, steps: Seq<Step>, reserved_minimum: nat) -> nat
    decreases steps.len(),
{
    if steps.len() == 0 {
        0
    } else {
        withdrawn(record, steps.drop_last(), reserved_minimum) + steps.last().paid_out(
            run(record, steps.drop_last(), reserved_minimum),
            reserved_minimum,
        )
    }
}

/// A call of `donate` changes the record as the donation step does, and a
/// call of `withdraw` as the withdrawal step does: the store after the call
/// holds `Step::apply` of the record under the fund's address, and nothing
/// else has changed.
pub proof fn lemma_calls_are_steps(
    before: Map<Seq<u8>, FundView>,
    after: Map<Seq<u8>, FundView>,
    fund: Seq<u8>,
    requester: Seq<u8>,
    balance: nat,
    balance_after: nat,
    amount: nat,
    today: CalendarDate,
    reserved_minimum: nat,
    outcome: Result<(), Error>,
)
    requires
        before.contains_key(fund),
    ensures
        donation(before, after, fund, balance, balance_after, amount, outcome) ==> after
            == before.insert(
            fund,
            (Step::Donate { donor_balance: balance, amount }).apply(before[fund], reserved_minimum),
        ),
        withdrawal(
            before,
            after,
            fund,
            requester,
            balance,
            balance_after,
            amount,
            today,
            reserved_minimum,
            outcome,
        ) ==> after == before.insert(
            fund,
            (Step::Withdraw { requester, requester_balance: balance, amount, today }).apply(
                before[fund],
                reserved_minimum,
            ),
        ),
{
    assert(before.insert(fund, before[fund]) =~= before);
}

/// Every call keeps a well-formed record well formed, keeps its metadata,
/// and does not lower its donation counter; a closed record is never
/// changed again.
pub proof fn lemma_step_keeps_invariants(record: FundView, step: Step, reserved_minimum: nat)
    requires
        record.well_formed(),
    ensures
        record.may_become(step.apply(record, reserved_minimum)),
        step.apply(record, reserved_minimum).well_formed(),
        !record.is_active ==> !step.accepted(record, reserved_minimum),
{
}

/// Over any run of calls on a well-formed record, the donation counter has
/// grown by the sum of the accepted donations, and the balance by that sum
/// less the sum of the accepted withdrawals.
pub proof fn lemma_run_accounts(record: FundView, steps: Seq<Step>, reserved_minimum: nat)
    requires
        record.well_formed(),
    ensures
        run(record, steps, reserved_minimum).well_formed(),
        record.may_become(run(record, steps, reserved_minimum)),
        run(record, steps, reserved_minimum).total_donated == record.total_donated + donated(
            record,
            steps,
            reserved_minimum,
        ),
        run(record, steps, reserved_minimum).current_balance + withdrawn(
            record,
            steps,
            reserved_minimum,
        ) == record.current_balance + donated(record, steps, reserved_minimum),
    decreases steps.len(),
{
    if steps.len() > 0 {
        lemma_run_accounts(record, steps.drop_last(), reserved_minimum);
        lemma_step_keeps_invariants(
            run(record, steps.drop_last(), reserved_minimum),
            steps.last(),
            reserved_minimum,
        );
    }
}

/// On a fund that has just been opened, after any run of calls,
/// `total_donated` is the sum of the accepted donations and
/// `current_balance` is `total_donated` less the sum of the accepted
/// withdrawals.
pub proof fn lemma_opened_fund_accounts(
    creator: Seq<u8>,
    name: Seq<char>,
    description: Seq<char>,
    due_date: CalendarDate,
    goal_amount: nat,
    is_locked: bool,
    date_created: int,
    steps: Seq<Step>,
    reserved_minimum: nat,
)
    ensures
        ({
            let opened = opened_fund(
                creator,
                name,
                description,
                due_date,
                goal_amount,
                is_locked,
                date_created,
            );
            let last = run(opened, steps, reserved_minimum);
            &&& last.total_donated == donated(opened, steps, reserved_minimum)
            &&& last.current_balance == last.total_donated - withdrawn(
                opened,
                steps,
                reserved_minimum,
            )
        }),
{
    let opened = opened_fund(
        creator,
        name,
        description,
        due_date,
        goal_amount,
        is_locked,
        date_created,
    );
    lemma_run_accounts(opened, steps, reserved_minimum);
}

/// A withdrawal asked for by anyone but the creator of an existing fund is
/// refused as `Unauthorized`, whatever the amount and the day, and changes
/// neither the store nor the requester's balance.
pub proof fn lemma_only_creator_withdraws(
    before: Map<Seq<u8>, FundView>,
    after: Map<Seq<u8>, FundView>,
    fund: Seq<u8>,
    requester: Seq<u8>,
    held: nat,
    holds: nat,
    amount: nat,
    today: CalendarDate,
    reserved_minimum: nat,
    outcome: Result<(), Error>,
)
    requires
        before.contains_key(fund),
        requester != before[fund].creator,
        withdrawal(
            before,
            after,
            fund,
            requester,
            held,
            holds,
            amount,
            today,
            reserved_minimum,
            outcome,
        ),
    ensures
        outcome == Err::<(), Error>(Error::Unauthorized),
        after == before,
        holds == held,
{
}

/// Where the creator asks an open fund, which no lock holds back, for more
/// than it holds, the withdrawal is refused as `InvalidAmount` and changes
/// nothing.
pub proof fn lemma_overdraw_refused(
    before: Map<Seq<u8>, FundView>,
    after: Map<Seq<u8>, FundView>,
    fund: Seq<u8>,
    requester: Seq<u8>,
    held: nat,
    holds: nat,
    amount: nat,
    today: CalendarDate,
    reserved_minimum: nat,
    outcome: Result<(), Error>,
)
    requires
        before.contains_key(fund),
        requester == before[fund].creator,
        before[fund].is_active,
        !(before[fund].is_locked && today.is_before(before[fund].due_date)),
        amount > before[fund].current_balance,
        withdrawal(
            before,
            after,
            fund,
            requester,
            held,
            holds,
            amount,
            today,
            reserved_minimum,
            outcome,
        ),
    ensures
        outcome == Err::<(), Error>(Error::InvalidAmount),
        after == before,
        holds == held,
{
}

/// While the due date of a locked, open fund lies ahead, every withdrawal
/// that its creator asks for is refused as `Locked` and changes nothing.
pub proof fn lemma_locked_until_due(
    before: Map<Seq<u8>, FundView>,
    after: Map<Seq<u8>, FundView>,
    fund: Seq<u8>,
    requester: Seq<u8>,
    held: nat,
    holds: nat,
    amount: nat,
    today: CalendarDate,
    reserved_minimum: nat,
    outcome: Result<(), Error>,
)
    requires
        before.contains_key(fund),
        requester == before[fund].creator,
        before[fund].is_active,
        before[fund].is_locked,
        today.is_before(before[fund].due_date),
        withdrawal(
            before,
            after,
            fund,
            requester,
            held,
            holds,
            amount,
            today,
            reserved_minimum,
            outcome,
        ),
    ensures
        outcome == Err::<(), Error>(Error::Locked),
        after == before,
        holds == held,
{
}

/// From the due date on, a lock holds nothing back, and a fund without a
/// lock is never held back: the creator's withdrawal from an open fund
/// succeeds where the amount is neither zero nor more than the balance, what remains is nothing or at least the
/// reserved minimum, and the requester's balance can take the amount. The
/// amount then moves from the fund to the requester.
pub proof fn lemma_due_date_unlocks(
    before: Map<Seq<u8>, FundView>,
    after: Map<Seq<u8>, FundView>,
    fund: Seq<u8>,
    requester: Seq<u8>,
    held: nat,
    holds: nat,
    amount: nat,
    today: CalendarDate,
    reserved_minimum: nat,
    outcome: Result<(), Error>,
)
    requires
        before.contains_key(fund),
        requester == before[fund].creator,
        before[fund].is_active,
        !before[fund].is_locked || !today.is_before(before[fund].due_date),
        0 < amount <= before[fund].current_balance,
        amount == before[fund].current_balance || before[fund].current_balance - amount
            >= reserved_minimum,
        held + amount <= u64::MAX,
        withdrawal(
            before,
            after,
            fund,
            requester,
            held,
            holds,
            amount,
            today,
            reserved_minimum,
            outcome,
        ),
    ensures
        outcome is Ok,
        after.contains_key(fund),
        after[fund].current_balance == before[fund].current_balance - amount,
        after[fund].total_donated == before[fund].total_donated,
        holds == held + amount,
{
}

/// A withdrawal of all that a fund holds, once accepted, leaves the fund
/// closed and empty.
pub proof fn lemma_full_withdrawal_closes(
    before: Map<Seq<u8>, FundView>,
    after: Map<Seq<u8>, FundView>,
    fund: Seq<u8>,
    requester: Seq<u8>,
    held: nat,
    holds: nat,
    today: CalendarDate,
    reserved_minimum: nat,
    outcome: Result<(), Error>,
)
    requires
        before.contains_key(fund),
        outcome is Ok,
        withdrawal(
            before,
            after,
            fund,
            requester,
            held,
            holds,
            before[fund].current_balance,
            today,
            reserved_minimum,
            outcome,
        ),
    ensures
        after.contains_key(fund),
        !after[fund].is_active,
        after[fund].current_balance == 0,
        holds == held + before[fund].current_balance,
{
}

/// A closed fund accepts nothing more: every donation to it is refused as
/// `NotFound`, every withdrawal as `NotFound` or, from another identity
/// than the creator, as `Unauthorized`, and neither changes anything.
pub proof fn lemma_closed_is_final(
    before: Map<Seq<u8>, FundView>,
    after: Map<Seq<u8>, FundView>,
    fund: Seq<u8>,
    caller: Seq<u8>,
    held: nat,
    holds: nat,
    amount: nat,
    today: CalendarDate,
    reserved_minimum: nat,
    outcome: Result<(), Error>,
)
    requires
        before.contains_key(fund),
        !before[fund].is_active,
    ensures
        donation(before, after, fund, held, holds, amount, outcome) ==> outcome == Err::<
            (),
            Error,
        >(Error::NotFound) && after == before && holds == held,
        withdrawal(
            before,
            after,
            fund,
            caller,
            held,
            holds,
            amount,
            today,
            reserved_minimum,
            outcome,
        ) ==> outcome == Err::<(), Error>(
            if caller == before[fund].creator {
                Error::NotFound
            } else {
                Error::Unauthorized
            },
        ) && after == before && holds == held,
{
}

/// Where the creator's withdrawal from an open fund, which no lock holds
/// back, would leave more than nothing and less than the reserved minimum,
/// it is refused as `BelowReserve` and changes nothing.
pub proof fn lemma_reserve_is_kept(
    before: Map<Seq<u8>, FundView>,
    after: Map<Seq<u8>, FundView>,
    fund: Seq<u8>,
    requester: Seq<u8>,
    held: nat,
    holds: nat,
    amount: nat,
    today: CalendarDate,
    reserved_minimum: nat,
    outcome: Result<(), Error>,
)
    requires
        before.contains_key(fund),
        requester == before[fund].creator,
        before[fund].is_active,
        !(before[fund].is_locked && today.is_before(before[fund].due_date)),
        0 < amount < before[fund].current_balance,
        before[fund].current_balance - amount < reserved_minimum,
        withdrawal(
            before,
            after,
            fund,
            requester,
            held,
            holds,
            amount,
            today,
            reserved_minimum,
            outcome,
        ),
    ensures
        outcome == Err::<(), Error>(Error::BelowReserve),
        after == before,
        holds == held,
{
}

/// An address that holds a record cannot be opened again: with a due date
/// that reads as a date, a second opening under it is refused as
/// `AlreadyExists`.
pub proof fn lemma_address_opens_once(
    records: Map<Seq<u8>, FundView>,
    address: Seq<u8>,
    record: FundView,
    due_date: CalendarDate,
)
    ensures
        create_error(records.insert(address, record), Some(address), Some(due_date)) == Some(
            Error::AlreadyExists,
        ),
        record_at(records.insert(address, record), address) == Some(record),
{
}

/// Nothing is made or lost: after a donation, accepted or refused, the
/// donor and the fund together hold what they held before, and so do the
/// requester and the fund after a withdrawal.
pub proof fn lemma_value_is_conserved(
    before: Map<Seq<u8>, FundView>,
    after: Map<Seq<u8>, FundView>,
    fund: Seq<u8>,
    caller: Seq<u8>,
    held: nat,
    holds: nat,
    amount: nat,
    today: CalendarDate,
    reserved_minimum: nat,
    outcome: Result<(), Error>,
)
    requires
        before.contains_key(fund),
        donation(before, after, fund, held, holds, amount, outcome) || withdrawal(
            before,
            after,
            fund,
            caller,
            held,
            holds,
            amount,
            today,
            reserved_minimum,
            outcome,
        ),
    ensures
        after.contains_key(fund),
        holds + after[fund].current_balance == held + before[fund].current_balance,
        after.dom() == before.dom(),
        forall|other: Seq<u8>| other != fund && before.contains_key(other) ==> after[other]
            == before[other],
{
    assert(before.insert(fund, before[fund]) =~= before);
    assert(before.insert(fund, after_donate(before[fund], amount)).dom() =~= before.dom());
    assert(before.insert(fund, after_withdraw(before[fund], amount)).dom() =~= before.dom());
}

} // verus!
