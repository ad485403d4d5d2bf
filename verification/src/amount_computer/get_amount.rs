use vstd::prelude::*;
use crate::text::{list_contains, names_contain, same_text};

verus! {

/// One row of the `transfer` or `withdraw` table inside the statistics window.
pub struct TxRecord {
    pub amount: i64,
    pub wallet_id: String,
    pub status: String,
}

/// The application that owns a wallet, as the `wallet` table records it.
pub struct WalletApp {
    pub wallet_id: String,
    pub appid: String,
}

/// The application ids of each fee level, from the `applevel` section of the configuration.
pub struct AppLevels {
    pub low: Vec<String>,
    pub middle: Vec<String>,
    pub high: Vec<String>,
}

/// Fee level of an application.
#[derive(PartialEq, Eq, Structural, Clone, Copy)]
pub enum Level {
    Low,
    Middle,
    High,
}

/// Transfer fee of one level: `amount * percent`, kept within `[min, max]`.
#[derive(Clone, Copy)]
pub struct TransferRule {
    pub percent: i64,
    pub min: i64,
    pub max: i64,
}

/// Transfer fee rules of the three levels.
#[derive(Clone, Copy)]
pub struct TransferRules {
    pub low: TransferRule,
    pub middle: TransferRule,
    pub high: TransferRule,
}

/// Withdraw rule of the middle or high level.
#[derive(Clone, Copy)]
pub struct WithdrawLimit {
    pub limit_min: i64,
    pub limit_max: i64,
    pub limit_value: i64,
}

/// Withdraw fee rules of the three levels.
#[derive(Clone, Copy)]
pub struct WithdrawRules {
    pub low_percent: i64,
    pub middle: WithdrawLimit,
    pub high: WithdrawLimit,
}

/// Which table the rows come from, with its fee rules.
#[derive(Clone, Copy)]
pub enum FeeSchedule {
    Transfer(TransferRules),
    Withdraw(WithdrawRules),
}

/// Fee total of one application.
#[derive(Debug)]
pub struct AppTotal {
    pub appid: String,
    pub total: i128,
}

/// Why the statistics were abandoned.
#[derive(Debug)]
pub enum StatError {
    /// A succeeded row names a wallet that the `wallet` table does not hold.
    UnknownWallet(String),
    /// A wallet belongs to an application that no level lists.
    UnlistedApp(String),
    /// The product of an amount and a rate leaves the range of `i64`.
    ChargeOverflow,
}

/// The fee statistics of one day. A table without rows in the window is
/// not computed; the withdraw table is not computed either once the
/// transfer statistics were abandoned.
pub struct DayReport {
    pub transfer: Option<Result<Vec<AppTotal>, StatError>>,
    pub withdraw: Option<Result<Vec<AppTotal>, StatError>>,
}

pub open spec fn is_succeeded(r: TxRecord) -> bool {
    r.status@ == "succeeded"@
}

/// The application of `wallet`: the first matching entry of the directory.
pub open spec fn lookup_app(dir: Seq<WalletApp>, wallet: Seq<char>) -> Option<Seq<char>>
    decreases dir.len(),
{
    if dir.len() == 0 {
        None
    } else if dir[0].wallet_id@ == wallet {
        Some(dir[0].appid@)
    } else {
        lookup_app(dir.drop_first(), wallet)
    }
}

pub open spec fn level_of(levels: AppLevels, appid: Seq<char>) -> Option<Level> {
    if names_contain(levels.low@, appid) {
        Some(Level::Low)
    } else if names_contain(levels.middle@, appid) {
        Some(Level::Middle)
    } else if names_contain(levels.high@, appid) {
        Some(Level::High)
    } else {
        None
    }
}

pub open spec fn fits_i64(x: int) -> bool {
    i64::MIN <= x <= i64::MAX
}

pub open spec fn rule_for(t: TransferRules, lvl: Level) -> TransferRule {
    match lvl {
        Level::Low => t.low,
        Level::Middle => t.middle,
        Level::High => t.high,
    }
}

/// `amount * percent`, raised to `min` when below it, else lowered to `max` when above it.
pub open spec fn clamped_charge(rule: TransferRule, amount: int) -> int {
    let c = amount * rule.percent;
    if c < rule.min {
        rule.min as int
    } else if c > rule.max {
        rule.max as int
    } else {
        c
    }
}

/// Whether the products that the fee of one row computes stay within `i64`.
pub open spec fn charge_fits(s: FeeSchedule, lvl: Level, amount: int) -> bool {
    match s {
        FeeSchedule::Transfer(t) => fits_i64(amount * rule_for(t, lvl).percent),
        FeeSchedule::Withdraw(w) => match lvl {
            Level::Low => fits_i64(amount * w.low_percent),
            Level::Middle => fits_i64(amount * 1000),
            Level::High => true,
        },
    }
}

/// The fee of one row. A withdraw of the middle or high level starts from
/// a charge of zero that is only ever multiplied, so it costs nothing.
pub open spec fn row_fee(s: FeeSchedule, lvl: Level, amount: int) -> int {
    match s {
        FeeSchedule::Transfer(t) => clamped_charge(rule_for(t, lvl), amount),
        FeeSchedule::Withdraw(w) => match lvl {
            Level::Low => amount * w.low_percent,
            _ => 0,
        },
    }
}

/// A row that the statistics can place: it failed, or its wallet has an
/// application that a level lists.
pub open spec fn row_placeable(dir: Seq<WalletApp>, levels: AppLevels, r: TxRecord) -> bool {
    is_succeeded(r) ==> {
        &&& lookup_app(dir, r.wallet_id@) is Some
        &&& level_of(levels, lookup_app(dir, r.wallet_id@)->0) is Some
    }
}

pub open spec fn placeable_before(
    dir: Seq<WalletApp>,
    levels: AppLevels,
    rows: Seq<TxRecord>,
    k: int,
) -> bool {
    forall|j: int| 0 <= j < k ==> row_placeable(dir, levels, #[trigger] rows[j])
}

pub open spec fn all_placeable(dir: Seq<WalletApp>, levels: AppLevels, rows: Seq<TxRecord>) -> bool {
    placeable_before(dir, levels, rows, rows.len() as int)
}

/// The level of the application that a placeable succeeded row belongs to.
pub open spec fn row_level(dir: Seq<WalletApp>, levels: AppLevels, r: TxRecord) -> Level {
    level_of(levels, lookup_app(dir, r.wallet_id@)->0)->0
}

pub open spec fn all_charges_fit(
    s: FeeSchedule,
    dir: Seq<WalletApp>,
    levels: AppLevels,
    rows: Seq<TxRecord>,
) -> bool {
    forall|j: int|
        0 <= j < rows.len() && is_succeeded(#[trigger] rows[j]) ==> charge_fits(
            s,
            row_level(dir, levels, rows[j]),
            rows[j].amount as int,
        )
}

/// Whether row `r` adds to the total of application `appid`.
pub open spec fn counted_for(dir: Seq<WalletApp>, r: TxRecord, appid: Seq<char>) -> bool {
    is_succeeded(r) && lookup_app(dir, r.wallet_id@) == Some(appid)
}

/// The sum of the fees of the succeeded rows whose wallet belongs to `appid`.
pub open spec fn app_total(
    s: FeeSchedule,
    dir: Seq<WalletApp>,
    levels: AppLevels,
    rows: Seq<TxRecord>,
    appid: Seq<char>,
) -> int
    decreases rows.len(),
{
    if rows.len() == 0 {
        0
    } else {
        app_total(s, dir, levels, rows.drop_last(), appid) + if counted_for(
            dir,
            rows.last(),
            appid,
        ) {
            row_fee(s, level_of(levels, appid)->0, rows.last().amount as int)
        } else {
            0
        }
    }
}

/// Whether some succeeded row belongs to `appid`.
pub open spec fn app_seen(dir: Seq<WalletApp>, rows: Seq<TxRecord>, appid: Seq<char>) -> bool {
    exists|j: int| 0 <= j < rows.len() && counted_for(dir, #[trigger] rows[j], appid)
}

/// `totals` holds one entry per application seen in `rows`, each with its exact total.
pub open spec fn totals_exact(
    totals: Seq<AppTotal>,
    s: FeeSchedule,
    dir: Seq<WalletApp>,
    levels: AppLevels,
    rows: Seq<TxRecord>,
) -> bool {
    &&& forall|i: int, j: int|
        0 <= i < j < totals.len() ==> #[trigger] totals[i].appid@ != #[trigger] totals[j].appid@
    &&& forall|i: int|
        0 <= i < totals.len() ==> {
            &&& app_seen(dir, rows, #[trigger] totals[i].appid@)
            &&& totals[i].total == app_total(s, dir, levels, rows, totals[i].appid@)
        }
    &&& forall|a: Seq<char>|
        app_seen(dir, rows, a) ==> exists|i: int| 0 <= i < totals.len() && #[trigger] totals[i].appid@ == a
}

/// What the statistics of one table give for `rows`, whatever the order of the entries.
pub open spec fn fee_totals_outcome(
    res: Result<Vec<AppTotal>, StatError>,
    s: FeeSchedule,
    dir: Seq<WalletApp>,
    levels: AppLevels,
    rows: Seq<TxRecord>,
) -> bool {
    match res {
        Err(StatError::UnknownWallet(w)) => exists|k: int|
            0 <= k < rows.len() && placeable_before(dir, levels, rows, k) && is_succeeded(
                #[trigger] rows[k],
            ) && lookup_app(dir, rows[k].wallet_id@) is None && w@ == rows[k].wallet_id@,
        Err(StatError::UnlistedApp(a)) => exists|k: int|
            0 <= k < rows.len() && placeable_before(dir, levels, rows, k) && is_succeeded(
                #[trigger] rows[k],
            ) && lookup_app(dir, rows[k].wallet_id@) == Some(a@) && level_of(levels, a@) is None,
        Err(StatError::ChargeOverflow) => all_placeable(dir, levels, rows) && !all_charges_fit(
            s,
            dir,
            levels,
            rows,
        ),
        Ok(totals) => all_placeable(dir, levels, rows) && all_charges_fit(s, dir, levels, rows)
            && totals_exact(totals@, s, dir, levels, rows),
    }
}

/// The statement that reads the rows of `table` created strictly between
/// `start` and `end`: the amount from `amount_column`, the wallet and the status.
pub open spec fn window_select_sql(
    amount_column: Seq<char>,
    table: Seq<char>,
    start: Seq<char>,
    end: Seq<char>,
) -> Seq<char> {
    "select "@ + amount_column + ", wallet_id,status from "@ + table + " where created > '"@ + start
        + "' and created < '"@ + end + "'"@
}

pub fn window_select(amount_column: &str, table: &str, start: &str, end: &str) -> (r: String)
    ensures
        r@ == window_select_sql(amount_column@, table@, start@, end@),
{
    String::from_str("select ").concat(amount_column).concat(", wallet_id,status from ").concat(
        table,
    ).concat(" where created > '").concat(start).concat("' and created < '").concat(end).concat("'")
}

/// Finds the application of `wallet` in the directory.
pub fn find_app(dir: &Vec<WalletApp>, wallet: &String) -> (r: Option<String>)
    ensures
        r matches Some(a) ==> lookup_app(dir@, wallet@) == Some(a@),
        r is None ==> lookup_app(dir@, wallet@) is None,
{
    let n = dir.len();
    let mut i: usize = 0;
    assert(dir@.skip(0) =~= dir@);
    while i < n
        invariant
            n == dir@.len(),
            i <= n,
            lookup_app(dir@, wallet@) == lookup_app(dir@.skip(i as int), wallet@),
        decreases n - i,
    {
        assert(dir@.skip(i as int).drop_first() =~= dir@.skip(i + 1));
        if dir[i].wallet_id == *wallet {
            return Some(dir[i].appid.clone());
        }
        i = i + 1;
    }
    None
}

/// The level that the configuration gives `appid`.
pub fn find_level(levels: &AppLevels, appid: &String) -> (r: Option<Level>)
    ensures
        r == level_of(*levels, appid@),
{
    if list_contains(&levels.low, appid) {
        Some(Level::Low)
    } else if list_contains(&levels.middle, appid) {
        Some(Level::Middle)
    } else if list_contains(&levels.high, appid) {
        Some(Level::High)
    } else {
        None
    }
}

fn rule_of(t: &TransferRules, lvl: Level) -> (r: TransferRule)
    ensures
        r == rule_for(*t, lvl),
{
    match lvl {
        Level::Low => t.low,
        Level::Middle => t.middle,
        Level::High => t.high,
    }
}

/// `amount * factor` when it fits in `i64`.
fn checked_product(amount: i64, factor: i64) -> (r: Option<i64>)
    ensures
        r is Some <==> fits_i64(amount * factor),
        r matches Some(p) ==> p == amount * factor,
{
    let a: i128 = amount as i128;
    let f: i128 = factor as i128;
    assert(-0x4000_0000_0000_0000_0000_0000_0000_0000 <= a * f <= 0x4000_0000_0000_0000_0000_0000_0000_0000)
        by (nonlinear_arith)
        requires
            -0x8000_0000_0000_0000 <= a <= 0x7fff_ffff_ffff_ffff,
            -0x8000_0000_0000_0000 <= f <= 0x7fff_ffff_ffff_ffff,
    ;
    let wide: i128 = a * f;
    if wide < i64::MIN as i128 || wide > i64::MAX as i128 {
        None
    } else {
        Some(wide as i64)
    }
}

/// The fee of one succeeded row of level `lvl`, or `None` where the
/// arithmetic leaves the range of `i64`.
pub fn row_charge(schedule: &FeeSchedule, lvl: Level, amount: i64) -> (r: Option<i64>)
    ensures
        r is Some <==> charge_fits(*schedule, lvl, amount as int),
        r matches Some(c) ==> c == row_fee(*schedule, lvl, amount as int),
{
    match schedule {
        FeeSchedule::Transfer(t) => {
            let rule = rule_of(t, lvl);
            match checked_product(amount, rule.percent) {
                None => None,
                Some(c) => {
                    let mut charge: i64 = c;
                    if charge < rule.min {
                        charge = rule.min;
                    } else if charge > rule.max {
                        charge = rule.max;
                    }
                    Some(charge)
                },
            }
        },
        FeeSchedule::Withdraw(w) => match lvl {
            Level::Low => checked_product(amount, w.low_percent),
            Level::Middle => match checked_product(amount, 1000) {
                None => None,
                Some(scaled) => {
                    let mut charge: i64 = 0;
                    if scaled > w.middle.limit_value {
                        charge = charge * w.middle.limit_max;
                    } else {
                        charge = charge * w.middle.limit_min;
                    }
                    Some(charge)
                },
            },
            Level::High => {
                let mut charge: i64 = 0;
                if amount > w.high.limit_value {
                    charge = charge * w.high.limit_max;
                } else {
                    charge = charge * w.high.limit_min;
                }
                Some(charge)
            },
        },
    }
}

/// Adding row `i` to the rows before it adds its fee to the total of its
/// application and to no other.
proof fn lemma_extend_prefix(
    s: FeeSchedule,
    dir: Seq<WalletApp>,
    levels: AppLevels,
    rows: Seq<TxRecord>,
    i: int,
)
    requires
        0 <= i < rows.len(),
    ensures
        forall|a: Seq<char>|
            #[trigger] app_total(s, dir, levels, rows.take(i + 1), a) == app_total(
                s,
                dir,
                levels,
                rows.take(i),
                a,
            ) + if counted_for(dir, rows[i], a) {
                row_fee(s, level_of(levels, a)->0, rows[i].amount as int)
            } else {
                0
            },
        forall|a: Seq<char>|
            #[trigger] app_seen(dir, rows.take(i + 1), a) <==> (app_seen(dir, rows.take(i), a)
                || counted_for(dir, rows[i], a)),
{
    let pre = rows.take(i);
    let ext = rows.take(i + 1);
    assert(ext.drop_last() =~= pre);
    assert(ext.last() == rows[i]);
    assert forall|a: Seq<char>| #[trigger]
        app_seen(dir, ext, a) <==> (app_seen(dir, pre, a) || counted_for(dir, rows[i], a)) by {
        if app_seen(dir, ext, a) {
            let j = choose|j: int| 0 <= j < ext.len() && counted_for(dir, #[trigger] ext[j], a);
            if j < i {
                assert(pre[j] == ext[j]);
            }
        }
        if app_seen(dir, pre, a) {
            let j = choose|j: int| 0 <= j < pre.len() && counted_for(dir, #[trigger] pre[j], a);
            assert(ext[j] == pre[j]);
        }
        if counted_for(dir, rows[i], a) {
            assert(ext[i] == rows[i]);
        }
    }
}

/// An application that no succeeded row belongs to has a total of zero.
proof fn lemma_unseen_total_zero(
    s: FeeSchedule,
    dir: Seq<WalletApp>,
    levels: AppLevels,
    rows: Seq<TxRecord>,
    appid: Seq<char>,
)
    requires
        !app_seen(dir, rows, appid),
    ensures
        app_total(s, dir, levels, rows, appid) == 0,
    decreases rows.len(),
{
    if rows.len() > 0 {
        let pre = rows.drop_last();
        assert(!app_seen(dir, pre, appid)) by {
            if app_seen(dir, pre, appid) {
                let j = choose|j: int| 0 <= j < pre.len() && counted_for(dir, #[trigger] pre[j], appid);
                assert(rows[j] == pre[j]);
            }
        }
        assert(!counted_for(dir, rows.last(), appid)) by {
            if counted_for(dir, rows.last(), appid) {
                assert(counted_for(dir, rows[rows.len() - 1], appid));
            }
        }
        lemma_unseen_total_zero(s, dir, levels, pre, appid);
    }
}

/// Position of the entry of `appid` in `totals`.
fn position_of(totals: &Vec<AppTotal>, appid: &String) -> (r: Option<usize>)
    ensures
        r matches Some(k) ==> k < totals@.len() && totals@[k as int].appid@ == appid@,
        r is None ==> forall|j: int| 0 <= j < totals@.len() ==> totals@[j].appid@ != appid@,
{
    let m = totals.len();
    let mut k: usize = 0;
    while k < m
        invariant
            m == totals@.len(),
            k <= m,
            forall|j: int| 0 <= j < k ==> totals@[j].appid@ != appid@,
        decreases m - k,
    {
        if totals[k].appid == *appid {
            return Some(k);
        }
        k = k + 1;
    }
    None
}

/// Fee totals per application of the rows of one table: every succeeded
/// row is placed by its wallet's application and that application's level,
/// and its fee is added to the application's total.
///
/// The statistics are abandoned at the first succeeded row whose wallet is
/// unknown or whose application no level lists; then at a fee whose product
/// leaves `i64`. The totals are exact; the contract leaves the order of the
/// entries open (they are built in the order in which applications first appear).
pub fn app_fee_totals(
    rows: &Vec<TxRecord>,
    dir: &Vec<WalletApp>,
    levels: &AppLevels,
    schedule: &FeeSchedule,
) -> (res: Result<Vec<AppTotal>, StatError>)
    ensures
        fee_totals_outcome(res, *schedule, dir@, *levels, rows@),
{
    let n = rows.len();
    let mut i: usize = 0;
    while i < n
        invariant
            n == rows@.len(),
            i <= n,
            placeable_before(dir@, *levels, rows@, i as int),
        decreases n - i,
    {
        let r = &rows[i];
        if same_text(r.status.as_str(), "succeeded") {
            match find_app(dir, &r.wallet_id) {
                None => {
                    return Err(StatError::UnknownWallet(r.wallet_id.clone()));
                },
                Some(a) => match find_level(levels, &a) {
                    None => {
                        return Err(StatError::UnlistedApp(a));
                    },
                    Some(_) => {},
                },
            }
        }
        i = i + 1;
    }
    let mut totals: Vec<AppTotal> = Vec::new();
    let mut i: usize = 0;
    assert(rows@.take(0) =~= Seq::<TxRecord>::empty());
    while i < n
        invariant
            n == rows@.len(),
            i <= n,
            all_placeable(dir@, *levels, rows@),
            forall|j: int|
                0 <= j < i && is_succeeded(#[trigger] rows@[j]) ==> charge_fits(
                    *schedule,
                    row_level(dir@, *levels, rows@[j]),
                    rows@[j].amount as int,
                ),
            totals_exact(totals@, *schedule, dir@, *levels, rows@.take(i as int)),
            forall|j: int|
                0 <= j < totals@.len() ==> -(i as int) * 0x8000_0000_0000_0000 <= #[trigger] totals@[j].total
                    <= (i as int) * 0x8000_0000_0000_0000,
        decreases n - i,
    {
        let ghost pre = totals@;
        proof {
            lemma_extend_prefix(*schedule, dir@, *levels, rows@, i as int);
        }
        let r = &rows[i];
        if same_text(r.status.as_str(), "succeeded") {
            assert(row_placeable(dir@, *levels, rows@[i as int]));
            if let Some(a) = find_app(dir, &r.wallet_id) {
                if let Some(lvl) = find_level(levels, &a) {
                    let fee = match row_charge(schedule, lvl, r.amount) {
                        None => {
                            return Err(StatError::ChargeOverflow);
                        },
                        Some(f) => f,
                    };
                    assert forall|b: Seq<char>| counted_for(dir@, rows@[i as int], b) <==> b == a@ by {}
                    match position_of(&totals, &a) {
                        Some(k) => {
                            let entry = AppTotal {
                                appid: totals[k].appid.clone(),
                                total: totals[k].total + fee as i128,
                            };
                            totals.set(k, entry);
                            let ghost ext = rows@.take(i + 1);
                            let ghost base = rows@.take(i as int);
                            assert forall|j: int| 0 <= j < totals@.len() implies #[trigger] totals@[j].appid@ == pre[j].appid@ by {}
                            assert forall|j: int|
                                0 <= j < totals@.len() implies app_seen(dir@, ext, #[trigger] totals@[j].appid@)
                                && totals@[j].total == app_total(*schedule, dir@, *levels, ext, totals@[j].appid@) by {
                                assert(app_seen(dir@, base, pre[j].appid@));
                            }
                            assert forall|b: Seq<char>| app_seen(dir@, ext, b) implies exists|j: int|
                                0 <= j < totals@.len() && #[trigger] totals@[j].appid@ == b by {
                                if b == a@ {
                                    assert(totals@[k as int].appid@ == b);
                                } else {
                                    let j = choose|j: int| 0 <= j < pre.len() && #[trigger] pre[j].appid@ == b;
                                    assert(totals@[j].appid@ == b);
                                }
                            }
                            assert forall|j: int|
                                0 <= j < totals@.len() implies -((i + 1) as int) * 0x8000_0000_0000_0000
                                <= #[trigger] totals@[j].total <= ((i + 1) as int)
                                * 0x8000_0000_0000_0000 by {
                                if j != k {
                                    assert(totals@[j] == pre[j]);
                                }
                            }
                        },
                        None => {
                            let ghost av = a@;
                            totals.push(AppTotal { appid: a, total: fee as i128 });
                            let ghost ext = rows@.take(i + 1);
                            let ghost base = rows@.take(i as int);
                            assert(!app_seen(dir@, base, av)) by {
                                if app_seen(dir@, base, av) {
                                    let j = choose|j: int| 0 <= j < pre.len() && #[trigger] pre[j].appid@ == av;
                                }
                            }
                            assert forall|j: int| 0 <= j < pre.len() implies #[trigger] totals@[j] == pre[j] by {}
                            assert forall|j: int|
                                0 <= j < totals@.len() implies app_seen(dir@, ext, #[trigger] totals@[j].appid@)
                                && totals@[j].total == app_total(*schedule, dir@, *levels, ext, totals@[j].appid@) by {
                                if j < pre.len() {
                                    assert(app_seen(dir@, base, pre[j].appid@));
                                } else {
                                    assert(app_total(*schedule, dir@, *levels, base, av) == 0) by {
                                        lemma_unseen_total_zero(*schedule, dir@, *levels, base, av);
                                    }
                                }
                            }
                            assert forall|b: Seq<char>| app_seen(dir@, ext, b) implies exists|j: int|
                                0 <= j < totals@.len() && #[trigger] totals@[j].appid@ == b by {
                                if b == av {
                                    assert(totals@[pre.len() as int].appid@ == b);
                                } else {
                                    let j = choose|j: int| 0 <= j < pre.len() && #[trigger] pre[j].appid@ == b;
                                    assert(totals@[j].appid@ == b);
                                }
                            }
                            assert forall|j: int|
                                0 <= j < totals@.len() implies -((i + 1) as int) * 0x8000_0000_0000_0000
                                <= #[trigger] totals@[j].total <= ((i + 1) as int)
                                * 0x8000_0000_0000_0000 by {
                                if j < pre.len() {
                                    assert(totals@[j] == pre[j]);
                                }
                            }
                        },
                    }
                }
            }
        } else {
            assert forall|b: Seq<char>| !counted_for(dir@, rows@[i as int], b) by {}
            let ghost ext = rows@.take(i + 1);
            let ghost base = rows@.take(i as int);
            assert forall|j: int|
                0 <= j < totals@.len() implies app_seen(dir@, ext, #[trigger] totals@[j].appid@)
                && totals@[j].total == app_total(*schedule, dir@, *levels, ext, totals@[j].appid@) by {
                assert(app_seen(dir@, base, totals@[j].appid@));
            }
            assert forall|j: int|
                0 <= j < totals@.len() implies -((i + 1) as int) * 0x8000_0000_0000_0000
                <= #[trigger] totals@[j].total <= ((i + 1) as int) * 0x8000_0000_0000_0000 by {}
        }
        i = i + 1;
    }
    assert(rows@.take(n as int) =~= rows@);
    Ok(totals)
}

/// The fee statistics of one day over the transfers and the withdraws of
/// the window, each placed by the wallet directory and the levels.
pub fn day_amount_report(
    transfers: &Vec<TxRecord>,
    withdraws: &Vec<TxRecord>,
    dir: &Vec<WalletApp>,
    levels: &AppLevels,
    transfer_rules: TransferRules,
    withdraw_rules: WithdrawRules,
) -> (rep: DayReport)
    ensures
        rep.transfer is Some <==> transfers@.len() > 0,
        rep.transfer matches Some(t) ==> fee_totals_outcome(
            t,
            FeeSchedule::Transfer(transfer_rules),
            dir@,
            *levels,
            transfers@,
        ),
        rep.withdraw is Some <==> (withdraws@.len() > 0 && !(rep.transfer matches Some(Err(_)))),
        rep.withdraw matches Some(w) ==> fee_totals_outcome(
            w,
            FeeSchedule::Withdraw(withdraw_rules),
            dir@,
            *levels,
            withdraws@,
        ),
{
    let mut rep = DayReport { transfer: None, withdraw: None };
    if transfers.len() > 0 {
        let t = app_fee_totals(transfers, dir, levels, &FeeSchedule::Transfer(transfer_rules));
        let failed = t.is_err();
        rep.transfer = Some(t);
        if failed {
            return rep;
        }
    }
    if withdraws.len() > 0 {
        rep.withdraw = Some(
            app_fee_totals(withdraws, dir, levels, &FeeSchedule::Withdraw(withdraw_rules)),
        );
    }
    rep
}

/// The sum of the fees of all succeeded rows, each at its own level.
pub open spec fn table_fee(
    s: FeeSchedule,
    dir: Seq<WalletApp>,
    levels: AppLevels,
    rows: Seq<TxRecord>,
) -> int
    decreases rows.len(),
{
    if rows.len() == 0 {
        0
    } else {
        table_fee(s, dir, levels, rows.drop_last()) + if is_succeeded(rows.last()) {
            row_fee(s, row_level(dir, levels, rows.last()), rows.last().amount as int)
        } else {
            0
        }
    }
}

/// The totals of the applications of `apps`, added up.
pub open spec fn sum_app_totals(
    s: FeeSchedule,
    dir: Seq<WalletApp>,
    levels: AppLevels,
    rows: Seq<TxRecord>,
    apps: Seq<Seq<char>>,
) -> int
    decreases apps.len(),
{
    if apps.len() == 0 {
        0
    } else {
        sum_app_totals(s, dir, levels, rows, apps.drop_last()) + app_total(
            s,
            dir,
            levels,
            rows,
            apps.last(),
        )
    }
}

/// The `total` fields of `totals`, added up.
pub open spec fn sum_of_totals(totals: Seq<AppTotal>) -> int
    decreases totals.len(),
{
    if totals.len() == 0 {
        0
    } else {
        sum_of_totals(totals.drop_last()) + totals.last().total
    }
}

/// With a rule whose `min` is not above its `max`, a transfer fee lies
/// within `[min, max]`, and a product already within it is the fee.
pub proof fn law_transfer_fee_within_bounds(rule: TransferRule, amount: int)
    requires
        rule.min <= rule.max,
    ensures
        rule.min <= clamped_charge(rule, amount) <= rule.max,
        rule.min <= amount * rule.percent <= rule.max ==> clamped_charge(rule, amount) == amount
            * rule.percent,
{
}

/// Applications of the middle and the high level pay no withdraw fee, whatever their rows.
pub proof fn law_upper_levels_withdraw_free(
    w: WithdrawRules,
    dir: Seq<WalletApp>,
    levels: AppLevels,
    rows: Seq<TxRecord>,
    appid: Seq<char>,
)
    requires
        level_of(levels, appid) == Some(Level::Middle) || level_of(levels, appid) == Some(
            Level::High,
        ),
    ensures
        app_total(FeeSchedule::Withdraw(w), dir, levels, rows, appid) == 0,
    decreases rows.len(),
{
    if rows.len() > 0 {
        law_upper_levels_withdraw_free(w, dir, levels, rows.drop_last(), appid);
    }
}

/// Adding a row to the rows changes the totals of distinct applications by
/// the row's fee, counted once, when its application is among them.
proof fn lemma_sum_step(
    s: FeeSchedule,
    dir: Seq<WalletApp>,
    levels: AppLevels,
    rows: Seq<TxRecord>,
    apps: Seq<Seq<char>>,
)
    requires
        rows.len() > 0,
        forall|i: int, j: int| 0 <= i < j < apps.len() ==> apps[i] != apps[j],
    ensures
        sum_app_totals(s, dir, levels, rows, apps) == sum_app_totals(
            s,
            dir,
            levels,
            rows.drop_last(),
            apps,
        ) + if is_succeeded(rows.last()) && lookup_app(dir, rows.last().wallet_id@) is Some
            && apps.contains(lookup_app(dir, rows.last().wallet_id@)->0) {
            row_fee(
                s,
                level_of(levels, lookup_app(dir, rows.last().wallet_id@)->0)->0,
                rows.last().amount as int,
            )
        } else {
            0
        },
    decreases apps.len(),
{
    if apps.len() > 0 {
        let init = apps.drop_last();
        assert forall|i: int, j: int| 0 <= i < j < init.len() implies init[i] != init[j] by {
            assert(init[i] == apps[i] && init[j] == apps[j]);
        }
        lemma_sum_step(s, dir, levels, rows, init);
        let r = rows.last();
        let target = lookup_app(dir, r.wallet_id@);
        if is_succeeded(r) && target is Some {
            let x = target->0;
            if apps.last() == x {
                assert(!init.contains(x)) by {
                    if init.contains(x) {
                        let i = choose|i: int| 0 <= i < init.len() && init[i] == x;
                        assert(apps[i] == apps[apps.len() - 1]);
                    }
                }
                assert(apps.contains(x)) by {
                    assert(apps[apps.len() - 1] == x);
                }
            } else {
                assert(apps.contains(x) == init.contains(x)) by {
                    if apps.contains(x) {
                        let i = choose|i: int| 0 <= i < apps.len() && apps[i] == x;
                        assert(init[i] == x);
                    }
                    if init.contains(x) {
                        let i = choose|i: int| 0 <= i < init.len() && init[i] == x;
                        assert(apps[i] == x);
                    }
                }
            }
        }
    }
}

/// The totals of a list of distinct applications that holds every
/// application of a succeeded row add up to the fees of all succeeded rows.
proof fn lemma_totals_partition(
    s: FeeSchedule,
    dir: Seq<WalletApp>,
    levels: AppLevels,
    rows: Seq<TxRecord>,
    apps: Seq<Seq<char>>,
)
    requires
        forall|i: int, j: int| 0 <= i < j < apps.len() ==> apps[i] != apps[j],
        forall|a: Seq<char>| app_seen(dir, rows, a) ==> apps.contains(a),
        all_placeable(dir, levels, rows),
    ensures
        sum_app_totals(s, dir, levels, rows, apps) == table_fee(s, dir, levels, rows),
    decreases rows.len(),
{
    if rows.len() == 0 {
        lemma_sum_zero(s, dir, levels, rows, apps);
    } else {
        let pre = rows.drop_last();
        let r = rows.last();
        assert forall|a: Seq<char>| app_seen(dir, pre, a) implies apps.contains(a) by {
            let j = choose|j: int| 0 <= j < pre.len() && counted_for(dir, #[trigger] pre[j], a);
            assert(rows[j] == pre[j]);
        }
        assert forall|j: int| 0 <= j < pre.len() implies row_placeable(dir, levels, #[trigger] pre[j]) by {
            assert(rows[j] == pre[j]);
        }
        assert(row_placeable(dir, levels, rows[rows.len() - 1]));
        lemma_totals_partition(s, dir, levels, pre, apps);
        lemma_sum_step(s, dir, levels, rows, apps);
        if is_succeeded(r) && lookup_app(dir, r.wallet_id@) is Some {
            let x = lookup_app(dir, r.wallet_id@)->0;
            assert(counted_for(dir, rows[rows.len() - 1], x));
            assert(app_seen(dir, rows, x));
        }
    }
}

proof fn lemma_sum_zero(
    s: FeeSchedule,
    dir: Seq<WalletApp>,
    levels: AppLevels,
    rows: Seq<TxRecord>,
    apps: Seq<Seq<char>>,
)
    requires
        rows.len() == 0,
    ensures
        sum_app_totals(s, dir, levels, rows, apps) == 0,
    decreases apps.len(),
{
    if apps.len() > 0 {
        lemma_sum_zero(s, dir, levels, rows, apps.drop_last());
    }
}

proof fn lemma_sum_of_totals_is_sum_app_totals(
    totals: Seq<AppTotal>,
    s: FeeSchedule,
    dir: Seq<WalletApp>,
    levels: AppLevels,
    rows: Seq<TxRecord>,
)
    requires
        forall|i: int|
            0 <= i < totals.len() ==> #[trigger] totals[i].total == app_total(
                s,
                dir,
                levels,
                rows,
                totals[i].appid@,
            ),
    ensures
        sum_of_totals(totals) == sum_app_totals(
            s,
            dir,
            levels,
            rows,
            totals.map_values(|t: AppTotal| t.appid@),
        ),
    decreases totals.len(),
{
    let apps = totals.map_values(|t: AppTotal| t.appid@);
    if totals.len() > 0 {
        let init = totals.drop_last();
        assert(apps.drop_last() =~= init.map_values(|t: AppTotal| t.appid@));
        assert forall|i: int| 0 <= i < init.len() implies #[trigger] init[i].total == app_total(
            s,
            dir,
            levels,
            rows,
            init[i].appid@,
        ) by {
            assert(init[i] == totals[i]);
        }
        lemma_sum_of_totals_is_sum_app_totals(init, s, dir, levels, rows);
        assert(totals.last() == totals[totals.len() - 1]);
    }
}

/// Every fee is counted once: the entries of exact statistics add up to the
/// fees of all succeeded rows of the table.
pub proof fn law_totals_cover_every_fee(
    totals: Seq<AppTotal>,
    s: FeeSchedule,
    dir: Seq<WalletApp>,
    levels: AppLevels,
    rows: Seq<TxRecord>,
)
    requires
        totals_exact(totals, s, dir, levels, rows),
        all_placeable(dir, levels, rows),
    ensures
        sum_of_totals(totals) == table_fee(s, dir, levels, rows),
{
    let apps = totals.map_values(|t: AppTotal| t.appid@);
    assert forall|i: int, j: int| 0 <= i < j < apps.len() implies apps[i] != apps[j] by {
        assert(apps[i] == totals[i].appid@ && apps[j] == totals[j].appid@);
    }
    assert forall|a: Seq<char>| app_seen(dir, rows, a) implies apps.contains(a) by {
        let i = choose|i: int| 0 <= i < totals.len() && #[trigger] totals[i].appid@ == a;
        assert(apps[i] == a);
    }
    lemma_sum_of_totals_is_sum_app_totals(totals, s, dir, levels, rows);
    lemma_totals_partition(s, dir, levels, rows, apps);
}


proof fn lemma_app_total_failed_tail(
    s: FeeSchedule,
    dir: Seq<WalletApp>,
    levels: AppLevels,
    rows: Seq<TxRecord>,
    extra: Seq<TxRecord>,
    appid: Seq<char>,
)
    requires
        forall|j: int| 0 <= j < extra.len() ==> !is_succeeded(#[trigger] extra[j]),
    ensures
        app_total(s, dir, levels, rows + extra, appid) == app_total(s, dir, levels, rows, appid),
    decreases extra.len(),
{
    if extra.len() == 0 {
        assert(rows + extra =~= rows);
    } else {
        let shorter = extra.drop_last();
        assert((rows + extra).drop_last() =~= rows + shorter);
        assert((rows + extra).last() == extra[extra.len() - 1]);
        lemma_app_total_failed_tail(s, dir, levels, rows, shorter, appid);
    }
}

/// Rows that did not succeed change nothing: appending them to a table
/// leaves what the statistics of the table give unchanged, error or totals.
pub proof fn law_failed_rows_change_nothing(
    res: Result<Vec<AppTotal>, StatError>,
    s: FeeSchedule,
    dir: Seq<WalletApp>,
    levels: AppLevels,
    rows: Seq<TxRecord>,
    extra: Seq<TxRecord>,
)
    requires
        forall|j: int| 0 <= j < extra.len() ==> !is_succeeded(#[trigger] extra[j]),
    ensures
        fee_totals_outcome(res, s, dir, levels, rows + extra) == fee_totals_outcome(
            res,
            s,
            dir,
            levels,
            rows,
        ),
{
    let all = rows + extra;
    assert forall|j: int| 0 <= j < rows.len() implies #[trigger] all[j] == rows[j] by {}
    assert forall|j: int| rows.len() <= j < all.len() implies !is_succeeded(#[trigger] all[j]) by {
        assert(all[j] == extra[j - rows.len()]);
    }
    assert forall|k: int| 0 <= k <= rows.len() implies placeable_before(dir, levels, all, k)
        == placeable_before(dir, levels, rows, k) by {
        if placeable_before(dir, levels, rows, k) {
            assert forall|j: int| 0 <= j < k implies row_placeable(dir, levels, #[trigger] all[j]) by {
                assert(row_placeable(dir, levels, rows[j]));
            }
        }
        if placeable_before(dir, levels, all, k) {
            assert forall|j: int| 0 <= j < k implies row_placeable(dir, levels, #[trigger] rows[j]) by {
                assert(row_placeable(dir, levels, all[j]));
            }
        }
    }
    assert(all_placeable(dir, levels, all) == all_placeable(dir, levels, rows)) by {
        if all_placeable(dir, levels, rows) {
            assert forall|j: int| 0 <= j < all.len() implies row_placeable(dir, levels, #[trigger] all[j]) by {
                if j < rows.len() {
                    assert(row_placeable(dir, levels, rows[j]));
                }
            }
        }
        if all_placeable(dir, levels, all) {
            assert forall|j: int| 0 <= j < rows.len() implies row_placeable(dir, levels, #[trigger] rows[j]) by {
                assert(row_placeable(dir, levels, all[j]));
            }
        }
    }
    assert(all_charges_fit(s, dir, levels, all) == all_charges_fit(s, dir, levels, rows)) by {
        if all_charges_fit(s, dir, levels, rows) {
            assert forall|j: int| 0 <= j < all.len() && is_succeeded(#[trigger] all[j]) implies charge_fits(
                s,
                row_level(dir, levels, all[j]),
                all[j].amount as int,
            ) by {
                assert(is_succeeded(rows[j]));
            }
        }
        if all_charges_fit(s, dir, levels, all) {
            assert forall|j: int| 0 <= j < rows.len() && is_succeeded(#[trigger] rows[j]) implies charge_fits(
                s,
                row_level(dir, levels, rows[j]),
                rows[j].amount as int,
            ) by {
                assert(is_succeeded(all[j]));
            }
        }
    }
    assert forall|a: Seq<char>|
        #[trigger] app_seen(dir, all, a) == app_seen(dir, rows, a) && app_total(s, dir, levels, all, a)
            == app_total(s, dir, levels, rows, a) by {
        lemma_app_total_failed_tail(s, dir, levels, rows, extra, a);
        if app_seen(dir, all, a) {
            let j = choose|j: int| 0 <= j < all.len() && counted_for(dir, #[trigger] all[j], a);
            assert(counted_for(dir, rows[j], a));
        }
        if app_seen(dir, rows, a) {
            let j = choose|j: int| 0 <= j < rows.len() && counted_for(dir, #[trigger] rows[j], a);
            assert(counted_for(dir, all[j], a));
        }
    }
    match res {
        Err(StatError::UnknownWallet(w)) => {
            if fee_totals_outcome(res, s, dir, levels, all) {
                let k = choose|k: int|
                    0 <= k < all.len() && placeable_before(dir, levels, all, k) && is_succeeded(
                        #[trigger] all[k],
                    ) && lookup_app(dir, all[k].wallet_id@) is None && w@ == all[k].wallet_id@;
                assert(is_succeeded(rows[k]));
            }
            if fee_totals_outcome(res, s, dir, levels, rows) {
                let k = choose|k: int|
                    0 <= k < rows.len() && placeable_before(dir, levels, rows, k) && is_succeeded(
                        #[trigger] rows[k],
                    ) && lookup_app(dir, rows[k].wallet_id@) is None && w@ == rows[k].wallet_id@;
                assert(is_succeeded(all[k]));
            }
        },
        Err(StatError::UnlistedApp(a)) => {
            if fee_totals_outcome(res, s, dir, levels, all) {
                let k = choose|k: int|
                    0 <= k < all.len() && placeable_before(dir, levels, all, k) && is_succeeded(
                        #[trigger] all[k],
                    ) && lookup_app(dir, all[k].wallet_id@) == Some(a@) && level_of(levels, a@) is None;
                assert(is_succeeded(rows[k]));
            }
            if fee_totals_outcome(res, s, dir, levels, rows) {
                let k = choose|k: int|
                    0 <= k < rows.len() && placeable_before(dir, levels, rows, k) && is_succeeded(
                        #[trigger] rows[k],
                    ) && lookup_app(dir, rows[k].wallet_id@) == Some(a@) && level_of(levels, a@) is None;
                assert(is_succeeded(all[k]));
            }
        },
        Err(StatError::ChargeOverflow) => {},
        Ok(totals) => {
            let t = totals@;
            if totals_exact(t, s, dir, levels, rows) {
                assert forall|a: Seq<char>| app_seen(dir, all, a) implies exists|i: int|
                    0 <= i < t.len() && #[trigger] t[i].appid@ == a by {
                    assert(app_seen(dir, rows, a));
                }
                assert forall|i: int| 0 <= i < t.len() implies app_seen(dir, all, #[trigger] t[i].appid@)
                    && t[i].total == app_total(s, dir, levels, all, t[i].appid@) by {
                    assert(app_seen(dir, rows, t[i].appid@));
                }
            }
            if totals_exact(t, s, dir, levels, all) {
                assert forall|a: Seq<char>| app_seen(dir, rows, a) implies exists|i: int|
                    0 <= i < t.len() && #[trigger] t[i].appid@ == a by {
                    assert(app_seen(dir, all, a));
                }
                assert forall|i: int| 0 <= i < t.len() implies app_seen(dir, rows, #[trigger] t[i].appid@)
                    && t[i].total == app_total(s, dir, levels, rows, t[i].appid@) by {
                    assert(app_seen(dir, all, t[i].appid@));
                }
            }
        },
    }
}

/// A transfer fee is the point of its level's `[min, max]` nearest to
/// `amount * percent`: with `min <= max`, the fee lies within the bounds, it
/// is below the product only when it is `max` and above it only when it is
/// `min`. The fee can be computed exactly when the product fits in `i64`.
pub proof fn law_transfer_fee_nearest_in_bounds(
    t: TransferRules,
    lvl: Level,
    rule: TransferRule,
    amount: int,
)
    requires
        (lvl == Level::Low && rule == t.low) || (lvl == Level::Middle && rule == t.middle) || (lvl
            == Level::High && rule == t.high),
        rule.min <= rule.max,
    ensures
        rule.min <= row_fee(FeeSchedule::Transfer(t), lvl, amount) <= rule.max,
        row_fee(FeeSchedule::Transfer(t), lvl, amount) < amount * rule.percent ==> row_fee(
            FeeSchedule::Transfer(t),
            lvl,
            amount,
        ) == rule.max,
        row_fee(FeeSchedule::Transfer(t), lvl, amount) > amount * rule.percent ==> row_fee(
            FeeSchedule::Transfer(t),
            lvl,
            amount,
        ) == rule.min,
        charge_fits(FeeSchedule::Transfer(t), lvl, amount) <==> (i64::MIN <= amount * rule.percent
            <= i64::MAX),
{
}

/// A withdraw fee: `amount * low_percent` at the low level, nothing at the
/// middle and high levels; only the low level's product can overflow.
pub proof fn law_withdraw_fee(w: WithdrawRules, amount: int)
    ensures
        row_fee(FeeSchedule::Withdraw(w), Level::Low, amount) == amount * w.low_percent,
        row_fee(FeeSchedule::Withdraw(w), Level::Middle, amount) == 0,
        row_fee(FeeSchedule::Withdraw(w), Level::High, amount) == 0,
        charge_fits(FeeSchedule::Withdraw(w), Level::Low, amount) <==> (i64::MIN <= amount
            * w.low_percent <= i64::MAX),
        charge_fits(FeeSchedule::Withdraw(w), Level::Middle, amount) <==> (i64::MIN <= amount
            * 1000 <= i64::MAX),
        charge_fits(FeeSchedule::Withdraw(w), Level::High, amount),
{
}

/// An application's level is the first list that names it, in the order
/// low, middle, high; an application that no list names has no level.
pub proof fn law_level_is_first_listing(levels: AppLevels, appid: Seq<char>)
    ensures
        (exists|i: int| 0 <= i < levels.low@.len() && #[trigger] levels.low@[i]@ == appid) ==> level_of(
            levels,
            appid,
        ) == Some(Level::Low),
        (forall|i: int| 0 <= i < levels.low@.len() ==> #[trigger] levels.low@[i]@ != appid) && (exists|i: int|
            0 <= i < levels.middle@.len() && #[trigger] levels.middle@[i]@ == appid) ==> level_of(
            levels,
            appid,
        ) == Some(Level::Middle),
        (forall|i: int| 0 <= i < levels.low@.len() ==> #[trigger] levels.low@[i]@ != appid) && (forall|i: int|
            0 <= i < levels.middle@.len() ==> #[trigger] levels.middle@[i]@ != appid) && (exists|i: int|
            0 <= i < levels.high@.len() && #[trigger] levels.high@[i]@ == appid) ==> level_of(
            levels,
            appid,
        ) == Some(Level::High),
        (forall|i: int| 0 <= i < levels.low@.len() ==> #[trigger] levels.low@[i]@ != appid) && (forall|i: int|
            0 <= i < levels.middle@.len() ==> #[trigger] levels.middle@[i]@ != appid) && (forall|i: int|
            0 <= i < levels.high@.len() ==> #[trigger] levels.high@[i]@ != appid) ==> level_of(levels, appid)
            is None,
{
}

/// A wallet's application is that of the first directory entry for the
/// wallet; a wallet without an entry has none.
pub proof fn law_app_of_first_directory_entry(dir: Seq<WalletApp>, wallet: Seq<char>, j: int)
    requires
        0 <= j < dir.len(),
        dir[j].wallet_id@ == wallet,
        forall|k: int| 0 <= k < j ==> dir[k].wallet_id@ != wallet,
    ensures
        lookup_app(dir, wallet) == Some(dir[j].appid@),
    decreases j,
{
    if j > 0 {
        let rest = dir.drop_first();
        assert forall|k: int| 0 <= k < j - 1 implies rest[k].wallet_id@ != wallet by {
            assert(rest[k] == dir[k + 1]);
        }
        assert(dir[0].wallet_id@ != wallet);
        law_app_of_first_directory_entry(rest, wallet, j - 1);
    }
}

/// A wallet that no directory entry names has no application.
pub proof fn law_unknown_wallet_has_no_app(dir: Seq<WalletApp>, wallet: Seq<char>)
    requires
        forall|k: int| 0 <= k < dir.len() ==> dir[k].wallet_id@ != wallet,
    ensures
        lookup_app(dir, wallet) is None,
    decreases dir.len(),
{
    if dir.len() > 0 {
        let rest = dir.drop_first();
        assert forall|k: int| 0 <= k < rest.len() implies rest[k].wallet_id@ != wallet by {
            assert(rest[k] == dir[k + 1]);
        }
        assert(dir[0].wallet_id@ != wallet);
        law_unknown_wallet_has_no_app(rest, wallet);
    }
}

} // verus!
