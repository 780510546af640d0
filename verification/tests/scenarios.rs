use crowdfunding::{
    create, create_record, donate, withdraw, withdrawAll, withdraw_all_on, withdraw_on, Address,
    CalendarDate, Create, Donate, Error, Ledger, Wallet, Withdraw,
};

fn key(n: u8) -> Address {
    Address::new([n; 32])
}

fn day_text(date: chrono::NaiveDate) -> String {
    date.format("%d.%m.%Y").to_string()
}

fn open_fund(ledger: &mut Ledger, creator: Address, name: &str, due: &str, locked: bool) -> Address {
    create(
        ledger,
        &Create { user: creator },
        name.to_string(),
        "a campaign".to_string(),
        due,
        1000,
        locked,
    )
    .unwrap()
}

#[test]
fn locked_fund_past_due_is_withdrawn_in_full_and_closed() {
    let mut ledger = Ledger::new(0);
    let creator = key(1);
    let yesterday = chrono::Utc::now().date_naive().pred_opt().unwrap();
    let fund = open_fund(&mut ledger, creator, "well", &day_text(yesterday), true);

    let record = ledger.read(&fund).unwrap();
    assert_eq!(record.goal_amount, 1000);
    assert_eq!(record.total_donated, 0);
    assert_eq!(record.current_balance, 0);
    assert!(record.is_active);
    assert!(record.is_locked);

    let mut gift = Donate { fund, user: Wallet { key: key(2), balance: 800 } };
    assert_eq!(donate(&mut ledger, &mut gift, 500), Ok(()));
    assert_eq!(gift.user.balance, 300);
    let record = ledger.read(&fund).unwrap();
    assert_eq!(record.current_balance, 500);
    assert_eq!(record.total_donated, 500);

    let mut claim = Withdraw { fund, user: Wallet { key: creator, balance: 7 } };
    assert_eq!(withdraw(&mut ledger, &mut claim, 500), Ok(()));
    assert_eq!(claim.user.balance, 507);
    let record = ledger.read(&fund).unwrap();
    assert_eq!(record.current_balance, 0);
    assert!(!record.is_active);
    assert_eq!(record.total_donated, 500);

    assert_eq!(donate(&mut ledger, &mut gift, 100), Err(Error::NotFound));
    assert_eq!(gift.user.balance, 300);
    assert_eq!(ledger.read(&fund).unwrap().current_balance, 0);
}

#[test]
fn locked_fund_before_due_refuses_withdrawal() {
    let mut ledger = Ledger::new(0);
    let creator = key(1);
    let fund = open_fund(&mut ledger, creator, "bridge", "01.01.9999", true);

    let mut gift = Donate { fund, user: Wallet { key: key(2), balance: 200 } };
    assert_eq!(donate(&mut ledger, &mut gift, 200), Ok(()));

    let mut claim = Withdraw { fund, user: Wallet { key: creator, balance: 0 } };
    assert_eq!(withdraw(&mut ledger, &mut claim, 100), Err(Error::Locked));
    assert_eq!(claim.user.balance, 0);
    let record = ledger.read(&fund).unwrap();
    assert_eq!(record.current_balance, 200);
    assert_eq!(record.total_donated, 200);
    assert!(record.is_active);

    assert_eq!(withdrawAll(&mut ledger, &mut claim), Err(Error::Locked));
    assert_eq!(ledger.read(&fund).unwrap().current_balance, 200);
}

#[test]
fn withdrawal_succeeds_on_the_due_date_itself() {
    let mut ledger = Ledger::new(0);
    let creator = key(1);
    let fund = open_fund(&mut ledger, creator, "roof", "15.06.2031", true);
    let mut gift = Donate { fund, user: Wallet { key: key(2), balance: 200 } };
    assert_eq!(donate(&mut ledger, &mut gift, 200), Ok(()));

    let mut claim = Withdraw { fund, user: Wallet { key: creator, balance: 0 } };
    let eve = CalendarDate::new(2031, 6, 14);
    let due = CalendarDate::new(2031, 6, 15);
    assert_eq!(withdraw_on(&mut ledger, &mut claim, 50, &eve), Err(Error::Locked));
    assert_eq!(withdraw_on(&mut ledger, &mut claim, 50, &due), Ok(()));
    assert_eq!(claim.user.balance, 50);
    assert_eq!(ledger.read(&fund).unwrap().current_balance, 150);
}

#[test]
fn unlocked_fund_ignores_the_due_date() {
    let mut ledger = Ledger::new(0);
    let creator = key(1);
    let fund = open_fund(&mut ledger, creator, "garden", "01.01.9999", false);
    let mut gift = Donate { fund, user: Wallet { key: key(2), balance: 90 } };
    assert_eq!(donate(&mut ledger, &mut gift, 90), Ok(()));
    let mut claim = Withdraw { fund, user: Wallet { key: creator, balance: 1 } };
    assert_eq!(withdraw(&mut ledger, &mut claim, 40), Ok(()));
    assert_eq!(claim.user.balance, 41);
    let record = ledger.read(&fund).unwrap();
    assert_eq!(record.current_balance, 50);
    assert_eq!(record.total_donated, 90);
    assert!(record.is_active);
}

#[test]
fn withdrawal_by_another_identity_is_unauthorized() {
    let mut ledger = Ledger::new(0);
    let creator = key(1);
    let fund = open_fund(&mut ledger, creator, "school", "01.01.2020", false);
    let mut gift = Donate { fund, user: Wallet { key: key(2), balance: 300 } };
    assert_eq!(donate(&mut ledger, &mut gift, 300), Ok(()));

    let today = CalendarDate::new(2024, 1, 1);
    let mut thief = Withdraw { fund, user: Wallet { key: key(2), balance: 5 } };
    assert_eq!(withdraw_on(&mut ledger, &mut thief, 100, &today), Err(Error::Unauthorized));
    assert_eq!(withdraw_on(&mut ledger, &mut thief, 0, &today), Err(Error::Unauthorized));
    assert_eq!(withdraw_on(&mut ledger, &mut thief, 301, &today), Err(Error::Unauthorized));
    assert_eq!(withdraw_all_on(&mut ledger, &mut thief, &today), Err(Error::Unauthorized));
    assert_eq!(thief.user.balance, 5);
    let record = ledger.read(&fund).unwrap();
    assert_eq!(record.current_balance, 300);
    assert!(record.is_active);
}

#[test]
fn amount_must_be_positive_and_within_balance() {
    let mut ledger = Ledger::new(0);
    let creator = key(1);
    let fund = open_fund(&mut ledger, creator, "library", "01.01.2020", false);
    let mut gift = Donate { fund, user: Wallet { key: key(2), balance: 300 } };
    assert_eq!(donate(&mut ledger, &mut gift, 0), Err(Error::InvalidAmount));
    assert_eq!(donate(&mut ledger, &mut gift, 300), Ok(()));

    let today = CalendarDate::new(2024, 1, 1);
    let mut claim = Withdraw { fund, user: Wallet { key: creator, balance: 0 } };
    assert_eq!(withdraw_on(&mut ledger, &mut claim, 0, &today), Err(Error::InvalidAmount));
    assert_eq!(withdraw_on(&mut ledger, &mut claim, 301, &today), Err(Error::InvalidAmount));
    assert_eq!(claim.user.balance, 0);
    assert_eq!(ledger.read(&fund).unwrap().current_balance, 300);
}

#[test]
fn partial_withdrawal_may_not_strand_less_than_the_reserve() {
    let mut ledger = Ledger::new(100);
    assert_eq!(ledger.reserved_minimum(), 100);
    let creator = key(1);
    let fund = open_fund(&mut ledger, creator, "clinic", "01.01.2020", false);
    let mut gift = Donate { fund, user: Wallet { key: key(2), balance: 500 } };
    assert_eq!(donate(&mut ledger, &mut gift, 500), Ok(()));

    let today = CalendarDate::new(2024, 1, 1);
    let mut claim = Withdraw { fund, user: Wallet { key: creator, balance: 0 } };
    assert_eq!(withdraw_on(&mut ledger, &mut claim, 401, &today), Err(Error::BelowReserve));
    assert_eq!(withdraw_on(&mut ledger, &mut claim, 499, &today), Err(Error::BelowReserve));
    assert_eq!(claim.user.balance, 0);
    assert_eq!(ledger.read(&fund).unwrap().current_balance, 500);

    assert_eq!(withdraw_on(&mut ledger, &mut claim, 400, &today), Ok(()));
    assert_eq!(claim.user.balance, 400);
    let record = ledger.read(&fund).unwrap();
    assert_eq!(record.current_balance, 100);
    assert!(record.is_active);

    assert_eq!(withdraw_on(&mut ledger, &mut claim, 1, &today), Err(Error::BelowReserve));
    assert_eq!(withdraw_on(&mut ledger, &mut claim, 100, &today), Ok(()));
    assert_eq!(claim.user.balance, 500);
    let record = ledger.read(&fund).unwrap();
    assert_eq!(record.current_balance, 0);
    assert!(!record.is_active);
    assert_eq!(record.total_donated, 500);
}

#[test]
fn closed_fund_accepts_nothing_more() {
    let mut ledger = Ledger::new(0);
    let creator = key(1);
    let fund = open_fund(&mut ledger, creator, "well", "01.01.2020", false);
    let mut gift = Donate { fund, user: Wallet { key: key(2), balance: 50 } };
    assert_eq!(donate(&mut ledger, &mut gift, 30), Ok(()));
    let today = CalendarDate::new(2024, 1, 1);
    let mut claim = Withdraw { fund, user: Wallet { key: creator, balance: 0 } };
    assert_eq!(withdraw_all_on(&mut ledger, &mut claim, &today), Ok(()));
    assert_eq!(claim.user.balance, 30);
    assert!(!ledger.read(&fund).unwrap().is_active);

    assert_eq!(donate(&mut ledger, &mut gift, 10), Err(Error::NotFound));
    assert_eq!(withdraw_on(&mut ledger, &mut claim, 1, &today), Err(Error::NotFound));
    assert_eq!(withdraw_all_on(&mut ledger, &mut claim, &today), Err(Error::NotFound));
    let mut other = Withdraw { fund, user: Wallet { key: key(9), balance: 0 } };
    assert_eq!(withdraw_on(&mut ledger, &mut other, 1, &today), Err(Error::Unauthorized));
    assert_eq!(gift.user.balance, 20);
    assert_eq!(claim.user.balance, 30);
    let record = ledger.read(&fund).unwrap();
    assert_eq!(record.current_balance, 0);
    assert_eq!(record.total_donated, 30);
}

#[test]
fn withdraw_all_of_an_empty_fund_is_an_invalid_amount() {
    let mut ledger = Ledger::new(0);
    let creator = key(1);
    let fund = open_fund(&mut ledger, creator, "well", "01.01.2020", false);
    let today = CalendarDate::new(2024, 1, 1);
    let mut claim = Withdraw { fund, user: Wallet { key: creator, balance: 0 } };
    assert_eq!(withdraw_all_on(&mut ledger, &mut claim, &today), Err(Error::InvalidAmount));
    assert!(ledger.read(&fund).unwrap().is_active);
}

#[test]
fn missing_fund_is_not_found() {
    let mut ledger = Ledger::new(0);
    let today = CalendarDate::new(2024, 1, 1);
    let mut gift = Donate { fund: key(7), user: Wallet { key: key(2), balance: 50 } };
    assert_eq!(donate(&mut ledger, &mut gift, 10), Err(Error::NotFound));
    assert_eq!(gift.user.balance, 50);
    let mut claim = Withdraw { fund: key(7), user: Wallet { key: key(1), balance: 0 } };
    assert_eq!(withdraw_on(&mut ledger, &mut claim, 10, &today), Err(Error::NotFound));
    assert_eq!(withdraw_all_on(&mut ledger, &mut claim, &today), Err(Error::NotFound));
    assert_eq!(withdraw(&mut ledger, &mut claim, 10), Err(Error::NotFound));
    assert_eq!(withdrawAll(&mut ledger, &mut claim), Err(Error::NotFound));
    assert!(matches!(ledger.read(&key(7)), Err(Error::NotFound)));
}

#[test]
fn donor_without_the_amount_has_insufficient_funds() {
    let mut ledger = Ledger::new(0);
    let fund = open_fund(&mut ledger, key(1), "well", "01.01.2020", false);
    let mut gift = Donate { fund, user: Wallet { key: key(2), balance: 49 } };
    assert_eq!(donate(&mut ledger, &mut gift, 50), Err(Error::InsufficientFunds));
    assert_eq!(gift.user.balance, 49);
    let record = ledger.read(&fund).unwrap();
    assert_eq!(record.current_balance, 0);
    assert_eq!(record.total_donated, 0);
}

#[test]
fn counters_that_would_overflow_are_refused() {
    let mut ledger = Ledger::new(0);
    let creator = key(1);
    let fund = open_fund(&mut ledger, creator, "well", "01.01.2020", false);
    let mut gift = Donate { fund, user: Wallet { key: key(2), balance: u64::MAX } };
    assert_eq!(donate(&mut ledger, &mut gift, u64::MAX - 1), Ok(()));
    assert_eq!(gift.user.balance, 1);
    gift.user.balance = 10;
    assert_eq!(donate(&mut ledger, &mut gift, 2), Err(Error::InvariantViolated));
    assert_eq!(gift.user.balance, 10);
    assert_eq!(donate(&mut ledger, &mut gift, 1), Ok(()));
    assert_eq!(ledger.read(&fund).unwrap().total_donated, u64::MAX);

    let today = CalendarDate::new(2024, 1, 1);
    let mut claim = Withdraw { fund, user: Wallet { key: creator, balance: u64::MAX - 5 } };
    assert_eq!(withdraw_on(&mut ledger, &mut claim, 6, &today), Err(Error::InvariantViolated));
    assert_eq!(claim.user.balance, u64::MAX - 5);
    assert_eq!(ledger.read(&fund).unwrap().current_balance, u64::MAX);
    assert_eq!(withdraw_on(&mut ledger, &mut claim, 5, &today), Ok(()));
    assert_eq!(claim.user.balance, u64::MAX);
}

#[test]
fn totals_follow_the_donations_and_withdrawals() {
    let mut ledger = Ledger::new(10);
    let creator = key(1);
    let fund = open_fund(&mut ledger, creator, "well", "01.01.2020", false);
    let today = CalendarDate::new(2024, 1, 1);
    let mut gift = Donate { fund, user: Wallet { key: key(2), balance: 1000 } };
    let mut claim = Withdraw { fund, user: Wallet { key: creator, balance: 0 } };

    assert_eq!(donate(&mut ledger, &mut gift, 100), Ok(()));
    assert_eq!(donate(&mut ledger, &mut gift, 0), Err(Error::InvalidAmount));
    assert_eq!(donate(&mut ledger, &mut gift, 250), Ok(()));
    assert_eq!(withdraw_on(&mut ledger, &mut claim, 120, &today), Ok(()));
    assert_eq!(donate(&mut ledger, &mut gift, 2000), Err(Error::InsufficientFunds));
    assert_eq!(withdraw_on(&mut ledger, &mut claim, 225, &today), Err(Error::BelowReserve));
    assert_eq!(donate(&mut ledger, &mut gift, 50), Ok(()));
    assert_eq!(withdraw_on(&mut ledger, &mut claim, 30, &today), Ok(()));

    let record = ledger.read(&fund).unwrap();
    assert_eq!(record.total_donated, 100 + 250 + 50);
    assert_eq!(record.current_balance, 400 - (120 + 30));
    assert_eq!(gift.user.balance, 1000 - 400);
    assert_eq!(claim.user.balance, 150);
}

#[test]
fn create_record_reports_each_refusal() {
    let mut ledger = Ledger::new(0);
    let creator = key(1);
    let due = CalendarDate::new(2030, 12, 25);
    let made = create_record(
        &mut ledger,
        Some(key(8)),
        creator,
        "well".to_string(),
        "water".to_string(),
        Some(due),
        1000,
        true,
        1_700_000_000,
    );
    assert_eq!(made, Ok(key(8)));
    let record = ledger.read(&key(8)).unwrap();
    assert_eq!(record.creator, creator);
    assert_eq!(record.name, "well");
    assert_eq!(record.description, "water");
    assert_eq!(record.due_date, due);
    assert_eq!(record.date_created, 1_700_000_000);
    assert_eq!(record.total_donated, 0);
    assert_eq!(record.goal_amount, 1000);
    assert!(record.is_active);
    assert!(record.is_locked);
    assert_eq!(record.current_balance, 0);

    let again = create_record(
        &mut ledger,
        Some(key(8)),
        key(3),
        "other".to_string(),
        String::new(),
        Some(due),
        5,
        false,
        0,
    );
    assert_eq!(again, Err(Error::AlreadyExists));
    assert_eq!(ledger.read(&key(8)).unwrap().name, "well");

    let undated = create_record(
        &mut ledger,
        Some(key(9)),
        creator,
        "x".to_string(),
        String::new(),
        None,
        5,
        false,
        0,
    );
    assert_eq!(undated, Err(Error::InvalidDate));
    let undated_taken = create_record(
        &mut ledger,
        Some(key(8)),
        creator,
        "x".to_string(),
        String::new(),
        None,
        5,
        false,
        0,
    );
    assert_eq!(undated_taken, Err(Error::InvalidDate));
    let unplaced = create_record(
        &mut ledger,
        None,
        creator,
        "x".to_string(),
        String::new(),
        Some(due),
        5,
        false,
        0,
    );
    assert_eq!(unplaced, Err(Error::InvariantViolated));
    assert!(matches!(ledger.read(&key(9)), Err(Error::NotFound)));
}
