use wallet_services::amount_computer::get_amount::{
    app_fee_totals, day_amount_report, row_charge, AppLevels, AppTotal, FeeSchedule, Level,
    StatError, TransferRule, TransferRules, TxRecord, WalletApp, WithdrawLimit, WithdrawRules,
};

fn tx(amount: i64, wallet: &str, status: &str) -> TxRecord {
    TxRecord { amount, wallet_id: wallet.to_string(), status: status.to_string() }
}

fn owner(wallet: &str, app: &str) -> WalletApp {
    WalletApp { wallet_id: wallet.to_string(), appid: app.to_string() }
}

fn levels() -> AppLevels {
    AppLevels {
        low: vec!["app-low".to_string()],
        middle: vec!["app-mid".to_string()],
        high: vec!["app-high".to_string()],
    }
}

fn transfer_rules() -> TransferRules {
    TransferRules {
        low: TransferRule { percent: 2, min: 10, max: 100 },
        middle: TransferRule { percent: 3, min: 5, max: 50 },
        high: TransferRule { percent: 1, min: 0, max: 1000 },
    }
}

fn withdraw_rules() -> WithdrawRules {
    WithdrawRules {
        low_percent: 4,
        middle: WithdrawLimit { limit_min: 2, limit_max: 3, limit_value: 100 },
        high: WithdrawLimit { limit_min: 5, limit_max: 6, limit_value: 100 },
    }
}

fn directory() -> Vec<WalletApp> {
    vec![
        owner("w1", "app-low"),
        owner("w2", "app-low"),
        owner("w3", "app-mid"),
        owner("w4", "app-high"),
        owner("w5", "app-none"),
    ]
}

fn sorted(mut v: Vec<AppTotal>) -> Vec<(String, i128)> {
    let mut out: Vec<(String, i128)> = v.drain(..).map(|t| (t.appid, t.total)).collect();
    out.sort();
    out
}

#[test]
fn transfer_fee_is_clamped_to_bounds() {
    let s = FeeSchedule::Transfer(transfer_rules());
    assert_eq!(row_charge(&s, Level::Low, 3), Some(10));
    assert_eq!(row_charge(&s, Level::Low, 20), Some(40));
    assert_eq!(row_charge(&s, Level::Low, 500), Some(100));
    assert_eq!(row_charge(&s, Level::Middle, 10), Some(30));
    assert_eq!(row_charge(&s, Level::High, 5000), Some(1000));
}

#[test]
fn withdraw_fee_of_upper_levels_is_zero() {
    let s = FeeSchedule::Withdraw(withdraw_rules());
    assert_eq!(row_charge(&s, Level::Low, 25), Some(100));
    assert_eq!(row_charge(&s, Level::Middle, 1_000_000), Some(0));
    assert_eq!(row_charge(&s, Level::High, 1_000_000), Some(0));
}

#[test]
fn charge_overflow_is_reported() {
    let s = FeeSchedule::Transfer(transfer_rules());
    assert_eq!(row_charge(&s, Level::Low, i64::MAX), None);
    let w = FeeSchedule::Withdraw(withdraw_rules());
    assert_eq!(row_charge(&w, Level::Middle, i64::MAX / 10), None);
    assert_eq!(row_charge(&w, Level::High, i64::MAX), Some(0));
}

#[test]
fn totals_per_application_skip_failed_rows() {
    let rows = vec![
        tx(20, "w1", "succeeded"),
        tx(3, "w2", "succeeded"),
        tx(10, "w3", "succeeded"),
        tx(999, "w1", "failed"),
        tx(999, "w5", "pending"),
        tx(2000, "w4", "succeeded"),
    ];
    let totals = app_fee_totals(&rows, &directory(), &levels(), &FeeSchedule::Transfer(transfer_rules()))
        .ok()
        .unwrap();
    assert_eq!(
        sorted(totals),
        vec![
            ("app-high".to_string(), 1000),
            ("app-low".to_string(), 50),
            ("app-mid".to_string(), 30),
        ]
    );
}

#[test]
fn totals_come_in_order_of_first_appearance() {
    let rows = vec![tx(10, "w3", "succeeded"), tx(20, "w1", "succeeded"), tx(10, "w3", "succeeded")];
    let totals = app_fee_totals(&rows, &directory(), &levels(), &FeeSchedule::Transfer(transfer_rules()))
        .ok()
        .unwrap();
    assert_eq!(totals.len(), 2);
    assert_eq!((totals[0].appid.as_str(), totals[0].total), ("app-mid", 60));
    assert_eq!((totals[1].appid.as_str(), totals[1].total), ("app-low", 40));
}

#[test]
fn unknown_wallet_abandons_statistics() {
    let rows = vec![tx(20, "w1", "succeeded"), tx(5, "missing", "succeeded"), tx(5, "w5", "succeeded")];
    match app_fee_totals(&rows, &directory(), &levels(), &FeeSchedule::Transfer(transfer_rules())) {
        Err(StatError::UnknownWallet(w)) => assert_eq!(w, "missing"),
        _ => panic!("expected an unknown wallet"),
    }
}

#[test]
fn unlisted_application_abandons_statistics() {
    let rows = vec![tx(5, "w5", "succeeded"), tx(5, "missing", "succeeded")];
    match app_fee_totals(&rows, &directory(), &levels(), &FeeSchedule::Transfer(transfer_rules())) {
        Err(StatError::UnlistedApp(a)) => assert_eq!(a, "app-none"),
        _ => panic!("expected an unlisted application"),
    }
}

#[test]
fn failed_rows_of_unknown_wallets_are_ignored() {
    let rows = vec![tx(5, "missing", "failed"), tx(5, "w5", "canceled")];
    let totals = app_fee_totals(&rows, &directory(), &levels(), &FeeSchedule::Transfer(transfer_rules()))
        .ok()
        .unwrap();
    assert!(totals.is_empty());
}

#[test]
fn overflow_comes_after_placement_errors() {
    let rows = vec![tx(i64::MAX, "w1", "succeeded"), tx(1, "missing", "succeeded")];
    assert!(matches!(
        app_fee_totals(&rows, &directory(), &levels(), &FeeSchedule::Transfer(transfer_rules())),
        Err(StatError::UnknownWallet(_))
    ));
    let rows = vec![tx(i64::MAX, "w1", "succeeded")];
    assert!(matches!(
        app_fee_totals(&rows, &directory(), &levels(), &FeeSchedule::Transfer(transfer_rules())),
        Err(StatError::ChargeOverflow)
    ));
}

#[test]
fn first_directory_entry_wins() {
    let dir = vec![owner("w1", "app-mid"), owner("w1", "app-low")];
    let rows = vec![tx(10, "w1", "succeeded")];
    let totals = app_fee_totals(&rows, &dir, &levels(), &FeeSchedule::Transfer(transfer_rules()))
        .ok()
        .unwrap();
    assert_eq!((totals[0].appid.as_str(), totals[0].total), ("app-mid", 30));
}

#[test]
fn sums_beyond_i64_stay_exact() {
    let rules = TransferRules {
        low: TransferRule { percent: 1, min: 0, max: i64::MAX },
        middle: TransferRule { percent: 1, min: 0, max: i64::MAX },
        high: TransferRule { percent: 1, min: 0, max: i64::MAX },
    };
    let rows = vec![tx(i64::MAX, "w1", "succeeded"), tx(i64::MAX, "w2", "succeeded")];
    let totals = app_fee_totals(&rows, &directory(), &levels(), &FeeSchedule::Transfer(rules)).ok().unwrap();
    assert_eq!(totals[0].total, 2 * (i64::MAX as i128));
}

#[test]
fn day_report_skips_empty_tables() {
    let rep = day_amount_report(&vec![], &vec![], &directory(), &levels(), transfer_rules(), withdraw_rules());
    assert!(rep.transfer.is_none());
    assert!(rep.withdraw.is_none());
}

#[test]
fn day_report_stops_after_failed_transfers() {
    let transfers = vec![tx(1, "missing", "succeeded")];
    let withdraws = vec![tx(25, "w1", "succeeded")];
    let rep = day_amount_report(&transfers, &withdraws, &directory(), &levels(), transfer_rules(), withdraw_rules());
    assert!(matches!(rep.transfer, Some(Err(StatError::UnknownWallet(_)))));
    assert!(rep.withdraw.is_none());
}

#[test]
fn day_report_computes_both_tables() {
    let transfers = vec![tx(20, "w1", "succeeded")];
    let withdraws = vec![tx(25, "w1", "succeeded"), tx(500, "w3", "succeeded"), tx(500, "w4", "succeeded")];
    let rep = day_amount_report(&transfers, &withdraws, &directory(), &levels(), transfer_rules(), withdraw_rules());
    let t = sorted(rep.transfer.unwrap().ok().unwrap());
    assert_eq!(t, vec![("app-low".to_string(), 40)]);
    let w = sorted(rep.withdraw.unwrap().ok().unwrap());
    assert_eq!(
        w,
        vec![("app-high".to_string(), 0), ("app-low".to_string(), 100), ("app-mid".to_string(), 0)]
    );
}

#[test]
fn withdraw_only_day() {
    let withdraws = vec![tx(3, "w2", "succeeded")];
    let rep = day_amount_report(&vec![], &withdraws, &directory(), &levels(), transfer_rules(), withdraw_rules());
    assert!(rep.transfer.is_none());
    let w = sorted(rep.withdraw.unwrap().ok().unwrap());
    assert_eq!(w, vec![("app-low".to_string(), 12)]);
}

#[test]
fn appended_failed_rows_change_nothing() {
    let s = FeeSchedule::Transfer(transfer_rules());
    let rows = vec![tx(20, "w1", "succeeded"), tx(10, "w3", "succeeded")];
    let mut more = vec![tx(20, "w1", "succeeded"), tx(10, "w3", "succeeded")];
    more.push(tx(999, "w1", "failed"));
    more.push(tx(5, "unknown", "pending"));
    more.push(tx(i64::MAX, "w5", "failed"));
    let a = sorted(app_fee_totals(&rows, &directory(), &levels(), &s).unwrap());
    let b = sorted(app_fee_totals(&more, &directory(), &levels(), &s).unwrap());
    assert_eq!(a, b);
    assert_eq!(a, vec![("app-low".to_string(), 40), ("app-mid".to_string(), 30)]);
}
