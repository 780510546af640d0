//! The operations of the vault: opening a fund, donating to it, and
//! withdrawing from it.
//!
//! Each operation works on one record of a [`Ledger`]. It reads the record,
//! decides, and writes the new record in one step. What moves between a
//! caller's own balance and the fund moves together with that step: either
//! both change or neither does.

use vstd::prelude::*;
use crate::address::Address;
use crate::date::{clock_seconds, due_date_of, CalendarDate};
use crate::fund::{Error, Fund, FundView};
use crate::ledger::Ledger;

verus! {

/// The program under whose name fund addresses are derived.
pub const PROGRAM_ID: [u8; 32] = [
    67, 224, 236, 117, 33, 182, 135, 219, 136, 126, 177, 145, 89, 141, 177, 14,
    23, 246, 159, 79, 197, 217, 103, 142, 149, 221, 114, 195, 80, 26, 99, 152,
];

/// The first seed of every fund address: the ASCII text `CROWDFUNDING`.
pub const ADDRESS_TAG: [u8; 12] = [67, 82, 79, 87, 68, 70, 85, 78, 68, 73, 78, 71];

/// An identity together with the balance that it holds outside the vault.
#[derive(Clone, Copy, Debug)]
pub struct Wallet {
    pub key: Address,
    pub balance: u64,
}

/// Who opens a fund.
#[derive(Clone, Copy, Debug)]
pub struct Create {
    /// The creator of the new fund.
    pub user: Address,
}

/// Who donates, and to which fund.
#[derive(Clone, Copy, Debug)]
pub struct Donate {
    pub fund: Address,
    /// The donor, who pays.
    pub user: Wallet,
}

/// Who withdraws, and from which fund.
#[derive(Clone, Copy, Debug)]
pub struct Withdraw {
    pub fund: Address,
    /// The requester, who is paid.
    pub user: Wallet,
}

/// What `Pubkey::try_find_program_address` gives for the seeds `tag`, `owner`
/// and the bytes of `label` under `program`: the address alone, without its
/// bump seed, or `None` where it finds none.
pub uninterp spec fn program_address(
    tag: Seq<u8>,
    owner: Seq<u8>,
    label: Seq<char>,
    program: Seq<u8>,
) -> Option<Seq<u8>>;

/// The address of the fund that `creator` opens under `name`, where there
/// is one.
pub open spec fn fund_address(creator: Seq<u8>, name: Seq<char>) -> Option<Seq<u8>> {
    program_address(ADDRESS_TAG@, creator, name, PROGRAM_ID@)
}

/// Calls `Pubkey::try_find_program_address` of `anchor_lang`. Trusted: the
/// address is a function of the three seeds and the program alone.
#[verifier::external_body]
pub(crate) fn find_program_address(
    tag: &[u8; 12],
    owner: &Address,
    label: &str,
    program: &[u8; 32],
) -> (found: Option<Address>)
    ensures
        match found {
            Some(address) => program_address(tag@, owner@, label@, program@) == Some(address@),
            None => program_address(tag@, owner@, label@, program@) is None,
        },
{
    let owner_key = anchor_lang::prelude::Pubkey::new_from_array(owner.bytes);
    let program_key = anchor_lang::prelude::Pubkey::new_from_array(*program);
    anchor_lang::prelude::Pubkey::try_find_program_address(
        &[tag.as_ref(), owner_key.as_ref(), label.as_bytes()],
        &program_key,
    ).map(|found| Address { bytes: found.0.to_bytes() })
}

/// The record of a fund that has just been opened: nothing donated, nothing
/// held, and active.
pub open spec fn opened_fund(
    creator: Seq<u8>,
    name: Seq<char>,
    description: Seq<char>,
    due_date: CalendarDate,
    goal_amount: nat,
    is_locked: bool,
    date_created: int,
) -> FundView {
    FundView {
        creator,
        name,
        description,
        due_date,
        date_created,
        total_donated: 0,
        goal_amount,
        is_active: true,
        is_locked,
        current_balance: 0,
    }
}

/// Why a fund cannot be opened, or `None` where it can: the due date must
/// be a calendar date, the address must exist, and it must be free.
pub open spec fn create_error(
    records: Map<Seq<u8>, FundView>,
    address: Option<Seq<u8>>,
    due_date: Option<CalendarDate>,
) -> Option<Error> {
    if due_date is None {
        Some(Error::InvalidDate)
    } else if address is None {
        Some(Error::InvariantViolated)
    } else if records.contains_key(address->0) {
        Some(Error::AlreadyExists)
    } else {
        None
    }
}

/// Opens a fund under `address` with the due date `due_date`, stamped
/// `date_created`. `address` and `due_date` are `None` where the derivation
/// of the one or the reading of the other failed.
pub fn create_record(
    ledger: &mut Ledger,
    address: Option<Address>,
    creator: Address,
    name: String,
    description: String,
    due_date: Option<CalendarDate>,
    goal_amount: u64,
    is_locked: bool,
    date_created: i64,
) -> (outcome: Result<Address, Error>)
    requires
        old(ledger).well_formed(),
    ensures
        final(ledger).well_formed(),
        final(ledger).reserve() == old(ledger).reserve(),
        match create_error(
            old(ledger)@,
            match address {
                Some(a) => Some(a@),
                None => None,
            },
            due_date,
        ) {
            Some(e) => outcome == Err::<Address, Error>(e) && final(ledger)@ == old(ledger)@,
            None => {
                &&& outcome matches Ok(made)
                &&& made@ == address->0@
                &&& final(ledger)@ == old(ledger)@.insert(
                    made@,
                    opened_fund(
                        creator@,
                        name@,
                        description@,
                        due_date->0,
                        goal_amount as nat,
                        is_locked,
                        date_created as int,
                    ),
                )
            },
        },
{
    let due = match due_date {
        Some(due) => due,
        None => {
            return Err(Error::InvalidDate);
        },
    };
    let place = match address {
        Some(place) => place,
        None => {
            return Err(Error::InvariantViolated);
        },
    };
    let record = Fund {
        creator,
        name,
        description,
        due_date: due,
        date_created,
        total_donated: 0,
        goal_amount,
        is_active: true,
        is_locked,
        current_balance: 0,
    };
    match ledger.create(place, record) {
        Ok(()) => Ok(place),
        Err(e) => Err(e),
    }
}

/// Opens a fund for `ctx.user` under the address derived from the creator
/// and `name`, and returns that address. `due_date` is read as day, month
/// and year with dots between them; the record is stamped with the time of
/// the call.
pub fn create(
    ledger: &mut Ledger,
    ctx: &Create,
    name: String,
    description: String,
    due_date: &str,
    goal_amount: u64,
    is_locked: bool,
) -> (outcome: Result<Address, Error>)
    requires
        old(ledger).well_formed(),
    ensures
        final(ledger).well_formed(),
        final(ledger).reserve() == old(ledger).reserve(),
        match create_error(old(ledger)@, fund_address(ctx.user@, name@), due_date_of(due_date@)) {
            Some(e) => outcome == Err::<Address, Error>(e) && final(ledger)@ == old(ledger)@,
            None => {
                &&& outcome matches Ok(made)
                &&& Some(made@) == fund_address(ctx.user@, name@)
                &&& exists|date_created: i64|
                    final(ledger)@ == old(ledger)@.insert(
                        made@,
                        #[trigger] opened_fund(
                            ctx.user@,
                            name@,
                            description@,
                            due_date_of(due_date@)->0,
                            goal_amount as nat,
                            is_locked,
                            date_created as int,
                        ),
                    )
            },
        },
{
    let due = CalendarDate::parse(due_date);
    let address = find_program_address(&ADDRESS_TAG, &ctx.user, name.as_str(), &PROGRAM_ID);
    let now = clock_seconds();
    create_record(
        ledger,
        address,
        ctx.user,
        name,
        description,
        due,
        goal_amount,
        is_locked,
        now,
    )
}

/// Why a donation of `amount` is refused, or `None` where it is accepted.
/// `record` is what the store holds under the fund's address and
/// `donor_balance` what the donor holds.
pub open spec fn donate_error(record: Option<FundView>, donor_balance: nat, amount: nat) -> Option<
    Error,
> {
    if record is None || !record->0.is_active {
        Some(Error::NotFound)
    } else if amount == 0 {
        Some(Error::InvalidAmount)
    } else if donor_balance < amount {
        Some(Error::InsufficientFunds)
    } else if record->0.total_donated + amount > u64::MAX {
        Some(Error::InvariantViolated)
    } else {
        None
    }
}

/// The record after a donation of `amount`: the balance and the donation
/// counter have both grown by it.
pub open spec fn after_donate(record: FundView, amount: nat) -> FundView {
    FundView {
        total_donated: record.total_donated + amount,
        current_balance: record.current_balance + amount,
        ..record
    }
}

/// Why a withdrawal of `amount` by `requester` on the day `today` is
/// refused, or `None` where it is accepted. The tests are made in this
/// order: the record exists; the requester is its creator; the fund is
/// still open; it is not locked before its due date; the amount is neither
/// zero nor more than the balance; what would remain is nothing or at least
/// `reserved_minimum`; the requester's own balance can take the amount.
pub open spec fn withdraw_error(
    record: Option<FundView>,
    requester: Seq<u8>,
    requester_balance: nat,
    amount: nat,
    today: CalendarDate,
    reserved_minimum: nat,
) -> Option<Error> {
    if record is None {
        Some(Error::NotFound)
    } else if requester != record->0.creator {
        Some(Error::Unauthorized)
    } else if !record->0.is_active {
        Some(Error::NotFound)
    } else if record->0.is_locked && today.is_before(record->0.due_date) {
        Some(Error::Locked)
    } else if amount == 0 || amount > record->0.current_balance {
        Some(Error::InvalidAmount)
    } else if 0 < record->0.current_balance - amount < reserved_minimum {
        Some(Error::BelowReserve)
    } else if requester_balance + amount > u64::MAX {
        Some(Error::InvariantViolated)
    } else {
        None
    }
}

/// The record after a withdrawal of `amount`: the balance has dropped by
/// it, the donation counter is as before, and the fund is closed if nothing
/// is left.
pub open spec fn after_withdraw(record: FundView, amount: nat) -> FundView {
    FundView {
        current_balance: (record.current_balance - amount) as nat,
        is_active: record.is_active && amount != record.current_balance,
        ..record
    }
}

/// The record under `address`, if the store holds one.
pub open spec fn record_at(records: Map<Seq<u8>, FundView>, address: Seq<u8>) -> Option<FundView> {
    if records.contains_key(address) {
        Some(records[address])
    } else {
        None
    }
}

/// A donation of `amount` led from the store `before` and the donor's balance
/// `paid_from` to the store `after`, the balance `left` and `outcome`.
pub open spec fn donation(
    before: Map<Seq<u8>, FundView>,
    after: Map<Seq<u8>, FundView>,
    fund: Seq<u8>,
    paid_from: nat,
    left: nat,
    amount: nat,
    outcome: Result<(), Error>,
) -> bool {
    match donate_error(record_at(before, fund), paid_from, amount) {
        Some(e) => outcome == Err::<(), Error>(e) && after == before && left == paid_from,
        None => {
            &&& outcome is Ok
            &&& after == before.insert(fund, after_donate(before[fund], amount))
            &&& left == paid_from - amount
        },
    }
}

/// A withdrawal of `amount` by `requester` on the day `today` led from the
/// store `before` and the requester's balance `held` to the store `after`,
/// the balance `holds` and `outcome`.
pub open spec fn withdrawal(
    before: Map<Seq<u8>, FundView>,
    after: Map<Seq<u8>, FundView>,
    fund: Seq<u8>,
    requester: Seq<u8>,
    held: nat,
    holds: nat,
    amount: nat,
    today: CalendarDate,
    reserved_minimum: nat,
    outcome: Result<(), Error>,
) -> bool {
    match withdraw_error(record_at(before, fund), requester, held, amount, today, reserved_minimum) {
        Some(e) => outcome == Err::<(), Error>(e) && after == before && holds == held,
        None => {
            &&& outcome is Ok
            &&& after == before.insert(fund, after_withdraw(before[fund], amount))
            &&& holds == held + amount
        },
    }
}

/// Moves `amount` from the donor `ctx.user` into the fund `ctx.fund`. The
/// fund must exist and be open, the amount must not be zero, and the donor
/// must hold it.
pub fn donate(ledger: &mut Ledger, ctx: &mut Donate, amount: u64) -> (outcome: Result<(), Error>)
    requires
        old(ledger).well_formed(),
    ensures
        final(ledger).well_formed(),
        final(ledger).reserve() == old(ledger).reserve(),
        final(ctx).fund == old(ctx).fund,
        final(ctx).user.key == old(ctx).user.key,
        donation(
            old(ledger)@,
            final(ledger)@,
            old(ctx).fund@,
            old(ctx).user.balance as nat,
            final(ctx).user.balance as nat,
            amount as nat,
            outcome,
        ),
{
    let record = match ledger.read(&ctx.fund) {
        Ok(record) => record,
        Err(e) => {
            return Err(e);
        },
    };
    if !record.is_active {
        return Err(Error::NotFound);
    }
    if amount == 0 {
        return Err(Error::InvalidAmount);
    }
    if ctx.user.balance < amount {
        return Err(Error::InsufficientFunds);
    }
    if record.total_donated > u64::MAX - amount {
        return Err(Error::InvariantViolated);
    }
    let credit = |held: &Fund| -> (made: Fund)
        requires
            held.current_balance <= held.total_donated,
            held.total_donated + amount <= u64::MAX,
        ensures
            made@ == after_donate(held@, amount as nat),
        {
            let mut made = held.clone();
            made.total_donated = held.total_donated + amount;
            made.current_balance = held.current_balance + amount;
            made
        };
    match ledger.apply(&ctx.fund, credit) {
        Ok(_) => {
            ctx.user.balance = ctx.user.balance - amount;
            Ok(())
        },
        Err(e) => Err(e),
    }
}

/// Moves `amount` from the fund `ctx.fund` to the requester `ctx.user`, as
/// of the day `today`. See [`withdraw_error`] for when it is refused. A
/// withdrawal of the whole balance closes the fund.
pub fn withdraw_on(ledger: &mut Ledger, ctx: &mut Withdraw, amount: u64, today: &CalendarDate) -> (outcome:
    Result<(), Error>)
    requires
        old(ledger).well_formed(),
    ensures
        final(ledger).well_formed(),
        final(ledger).reserve() == old(ledger).reserve(),
        final(ctx).fund == old(ctx).fund,
        final(ctx).user.key == old(ctx).user.key,
        withdrawal(
            old(ledger)@,
            final(ledger)@,
            old(ctx).fund@,
            old(ctx).user.key@,
            old(ctx).user.balance as nat,
            final(ctx).user.balance as nat,
            amount as nat,
            *today,
            old(ledger).reserve(),
            outcome,
        ),
{
    let record = match ledger.read(&ctx.fund) {
        Ok(record) => record,
        Err(e) => {
            return Err(e);
        },
    };
    if !ctx.user.key.same_as(&record.creator) {
        return Err(Error::Unauthorized);
    }
    if !record.is_active {
        return Err(Error::NotFound);
    }
    if record.is_locked && today.before(&record.due_date) {
        return Err(Error::Locked);
    }
    if amount == 0 || amount > record.current_balance {
        return Err(Error::InvalidAmount);
    }
    let remaining = record.current_balance - amount;
    if remaining > 0 && remaining < ledger.reserved_minimum() {
        return Err(Error::BelowReserve);
    }
    if ctx.user.balance > u64::MAX - amount {
        return Err(Error::InvariantViolated);
    }
    let debit = |held: &Fund| -> (made: Fund)
        requires
            amount <= held.current_balance,
        ensures
            made@ == after_withdraw(held@, amount as nat),
        {
            let mut made = held.clone();
            made.current_balance = held.current_balance - amount;
            made.is_active = held.is_active && amount != held.current_balance;
            made
        };
    match ledger.apply(&ctx.fund, debit) {
        Ok(_) => {
            ctx.user.balance = ctx.user.balance + amount;
            Ok(())
        },
        Err(e) => Err(e),
    }
}

/// Moves `amount` from the fund `ctx.fund` to the requester `ctx.user`, as
/// of the current day in UTC.
pub fn withdraw(ledger: &mut Ledger, ctx: &mut Withdraw, amount: u64) -> (outcome: Result<(), Error>)
    requires
        old(ledger).well_formed(),
    ensures
        final(ledger).well_formed(),
        final(ledger).reserve() == old(ledger).reserve(),
        final(ctx).fund == old(ctx).fund,
        final(ctx).user.key == old(ctx).user.key,
        exists|today: CalendarDate|
            today.in_range() && #[trigger] withdrawal(
                old(ledger)@,
                final(ledger)@,
                old(ctx).fund@,
                old(ctx).user.key@,
                old(ctx).user.balance as nat,
                final(ctx).user.balance as nat,
                amount as nat,
                today,
                old(ledger).reserve(),
                outcome,
            ),
{
    let today = CalendarDate::today();
    withdraw_on(ledger, ctx, amount, &today)
}

/// What the fund under `address` holds; zero where there is no such fund.
pub open spec fn balance_at(records: Map<Seq<u8>, FundView>, address: Seq<u8>) -> nat {
    if records.contains_key(address) {
        records[address].current_balance
    } else {
        0
    }
}

/// Withdraws all that the fund `ctx.fund` holds, as of the day `today`:
/// [`withdraw_on`] with the fund's balance as the amount. It closes the
/// fund. A fund that holds nothing has nothing to withdraw, and the amount
/// is refused.
pub fn withdraw_all_on(ledger: &mut Ledger, ctx: &mut Withdraw, today: &CalendarDate) -> (outcome:
    Result<(), Error>)
    requires
        old(ledger).well_formed(),
    ensures
        final(ledger).well_formed(),
        final(ledger).reserve() == old(ledger).reserve(),
        final(ctx).fund == old(ctx).fund,
        final(ctx).user.key == old(ctx).user.key,
        withdrawal(
            old(ledger)@,
            final(ledger)@,
            old(ctx).fund@,
            old(ctx).user.key@,
            old(ctx).user.balance as nat,
            final(ctx).user.balance as nat,
            balance_at(old(ledger)@, old(ctx).fund@),
            *today,
            old(ledger).reserve(),
            outcome,
        ),
{
    let amount = match ledger.read(&ctx.fund) {
        Ok(record) => record.current_balance,
        Err(e) => {
            return Err(e);
        },
    };
    withdraw_on(ledger, ctx, amount, today)
}

/// Withdraws all that the fund `ctx.fund` holds, as of the current day in
/// UTC.
#[allow(non_snake_case)]
pub fn withdrawAll(ledger: &mut Ledger, ctx: &mut Withdraw) -> (outcome: Result<(), Error>)
    requires
        old(ledger).well_formed(),
    ensures
        final(ledger).well_formed(),
        final(ledger).reserve() == old(ledger).reserve(),
        final(ctx).fund == old(ctx).fund,
        final(ctx).user.key == old(ctx).user.key,
        exists|today: CalendarDate|
            today.in_range() && #[trigger] withdrawal(
                old(ledger)@,
                final(ledger)@,
                old(ctx).fund@,
                old(ctx).user.key@,
                old(ctx).user.balance as nat,
                final(ctx).user.balance as nat,
                balance_at(old(ledger)@, old(ctx).fund@),
                today,
                old(ledger).reserve(),
                outcome,
            ),
{
    let today = CalendarDate::today();
    withdraw_all_on(ledger, ctx, &today)
}

} // verus!
