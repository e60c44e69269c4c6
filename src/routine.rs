//! The routine reset rule: a completed routine becomes open again once the
//! calendar period (day, week or month, in UTC) in which it was last
//! checked has passed.
use vstd::prelude::*;
use crate::instant::{in_time_range, Timestamp};
use vstd::arithmetic::div_mod::{lemma_fundamental_div_mod, lemma_mod_bound};

verus! {

pub const NANOS_PER_DAY: i128 = 86_400_000_000_000;

/// How often a routine recurs.
#[derive(Clone, Copy, Debug, PartialEq, Eq, Structural)]
pub enum Period {
    Daily,
    Weekly,
    Monthly,
}

/// A routine as the task store holds it. `typena` names its period:
/// `daily`, `weekly` or `monthly`.
#[derive(Clone, Debug)]
pub struct Routine {
    pub id: u128,
    pub title: String,
    pub description: String,
    pub checktime: Option<Timestamp>,
    pub typena: String,
    pub user_id: u128,
    pub completed: bool,
    pub created_at: Option<Timestamp>,
}

/// The year and the month (1 to 12) of the UTC calendar date of an instant.
pub uninterp spec fn utc_year_month(unix_nanos: i128) -> (int, int);

/// Relies on time::OffsetDateTime::from_unix_timestamp_nanos, which is UTC,
/// and on its year and month.
#[verifier::external_body]
fn calendar_month(unix_nanos: i128) -> (r: Option<(i32, u8)>)
    requires
        in_time_range(unix_nanos as int),
    ensures
        r is Some,
        r matches Some(ym) ==> (ym.0 as int, ym.1 as int) == utc_year_month(unix_nanos),
        r matches Some(ym) ==> 1 <= ym.1 <= 12,
{
    match time::OffsetDateTime::from_unix_timestamp_nanos(unix_nanos) {
        Ok(t) => Some((t.year(), u8::from(t.month()))),
        Err(_) => None,
    }
}

/// The number of the UTC day that holds an instant; day 0 is 1970-01-01.
pub open spec fn day_number(n: int) -> int {
    n / NANOS_PER_DAY as int
}

/// The number of the week, Monday to Sunday, that holds an instant; week 0
/// holds 1970-01-01, a Thursday.
pub open spec fn week_number(n: int) -> int {
    (day_number(n) + 3) / 7
}

/// The number of the UTC calendar month that holds an instant.
pub open spec fn month_number(n: i128) -> int {
    utc_year_month(n).0 * 12 + utc_year_month(n).1 - 1
}

pub open spec fn period_number(p: Period, n: i128) -> int {
    match p {
        Period::Daily => day_number(n as int),
        Period::Weekly => week_number(n as int),
        Period::Monthly => month_number(n),
    }
}

/// A routine checked at `checktime` is due again at `now` once `now` lies in
/// a later period than `checktime`.
pub open spec fn period_passed(p: Period, checktime: i128, now: i128) -> bool {
    period_number(p, checktime) < period_number(p, now)
}

/// The period that a routine's kind names, if any.
pub open spec fn period_of(kind: Seq<char>) -> Option<Period> {
    if kind == "daily"@ {
        Some(Period::Daily)
    } else if kind == "weekly"@ {
        Some(Period::Weekly)
    } else if kind == "monthly"@ {
        Some(Period::Monthly)
    } else {
        None
    }
}

/// The mathematical value of a routine, as far as the reset reads it.
pub struct RoutineView {
    pub id: u128,
    pub kind: Seq<char>,
    pub completed: bool,
    pub checktime: Option<i128>,
}

impl View for Routine {
    type V = RoutineView;

    open spec fn view(&self) -> RoutineView {
        RoutineView {
            id: self.id,
            kind: self.typena@,
            completed: self.completed,
            checktime: match self.checktime {
                Some(c) => Some(c.unix_nanos),
                None => None,
            },
        }
    }
}

/// A routine is reset at `now` when it is completed, has a period and a
/// check time, and that period has passed since.
pub open spec fn reset_due(r: RoutineView, now: i128) -> bool {
    &&& r.completed
    &&& period_of(r.kind) is Some
    &&& r.checktime is Some
    &&& period_passed(period_of(r.kind)->0, r.checktime->0, now)
}

impl Period {
    /// The period that a routine's kind names: `daily`, `weekly` or
    /// `monthly`; any other kind has none and is never reset.
    pub fn from_kind(kind: &String) -> (r: Option<Period>)
        ensures
            r == period_of(kind@),
    {
        if *kind == String::from_str("daily") {
            Some(Period::Daily)
        } else if *kind == String::from_str("weekly") {
            Some(Period::Weekly)
        } else if *kind == String::from_str("monthly") {
            Some(Period::Monthly)
        } else {
            None
        }
    }

    /// The number of the period of this kind that holds `t`.
    pub fn number(self, t: Timestamp) -> (r: i128)
        requires
            t.wf(),
        ensures
            r == period_number(self, t.unix_nanos),
    {
        let day = t.unix_nanos.checked_div_euclid(NANOS_PER_DAY).unwrap();
        match self {
            Period::Daily => day,
            Period::Weekly => (day + 3).checked_div_euclid(7).unwrap(),
            Period::Monthly => {
                let (year, month) = calendar_month(t.unix_nanos).unwrap();
                year as i128 * 12 + month as i128 - 1
            },
        }
    }
}

impl Routine {
    pub open spec fn wf(&self) -> bool {
        &&& (self.checktime matches Some(c) ==> c.wf())
        &&& (self.created_at matches Some(c) ==> c.wf())
    }

    /// Whether the reset at `now` opens this routine again.
    pub fn reset_due(&self, now: Timestamp) -> (r: bool)
        requires
            self.wf(),
            now.wf(),
        ensures
            r == reset_due(self@, now.unix_nanos),
    {
        if !self.completed {
            return false;
        }
        let period = match Period::from_kind(&self.typena) {
            Some(p) => p,
            None => return false,
        };
        match self.checktime {
            Some(c) => period.number(c) < period.number(now),
            None => false,
        }
    }

    /// The routine after the reset at `now`: where it is due it is no longer
    /// completed and was checked at `now`; otherwise it is unchanged.
    pub fn after_reset(self, now: Timestamp) -> (r: Routine)
        requires
            self.wf(),
            now.wf(),
        ensures
            r.wf(),
            reset_due(self@, now.unix_nanos) ==> r@ == (RoutineView {
                completed: false,
                checktime: Some(now.unix_nanos),
                ..self@
            }),
            !reset_due(self@, now.unix_nanos) ==> r@ == self@,
            r.title@ == self.title@ && r.description@ == self.description@,
            r.user_id == self.user_id && r.created_at == self.created_at,
    {
        if self.reset_due(now) {
            Routine { completed: false, checktime: Some(now), ..self }
        } else {
            self
        }
    }
}

/// The identifiers of the routines that the reset at `now` opens again, in
/// the order given.
pub open spec fn due_ids(routines: Seq<RoutineView>, now: i128) -> Seq<u128>
    decreases routines.len(),
{
    if routines.len() == 0 {
        Seq::empty()
    } else {
        let rest = due_ids(routines.drop_last(), now);
        if reset_due(routines.last(), now) {
            rest.push(routines.last().id)
        } else {
            rest
        }
    }
}

pub open spec fn routine_views(routines: Seq<Routine>) -> Seq<RoutineView> {
    routines.map_values(|r: Routine| r@)
}

/// The routines among `routines` that the reset at `now` opens again.
pub fn routines_due(routines: &Vec<Routine>, now: Timestamp) -> (r: Vec<u128>)
    requires
        forall|i: int| 0 <= i < routines@.len() ==> (#[trigger] routines@[i]).wf(),
        now.wf(),
    ensures
        r@ == due_ids(routine_views(routines@), now.unix_nanos),
{
    let mut out: Vec<u128> = Vec::new();
    let mut i: usize = 0;
    while i < routines.len()
        invariant
            i <= routines@.len(),
            now.wf(),
            forall|k: int| 0 <= k < routines@.len() ==> (#[trigger] routines@[k]).wf(),
            out@ == due_ids(routine_views(routines@).take(i as int), now.unix_nanos),
        decreases routines@.len() - i,
    {
        if routines[i].reset_due(now) {
            out.push(routines[i].id);
        }
        proof {
            let v = routine_views(routines@);
            assert(v.take(i as int + 1).drop_last() =~= v.take(i as int));
            assert(v.take(i as int + 1).last() == routines@[i as int]@);
        }
        i += 1;
    }
    proof {
        assert(routine_views(routines@).take(routines@.len() as int) =~= routine_views(routines@));
    }
    out
}

proof fn lemma_mul_le_iff_le_div(k: int, x: int, d: int)
    requires
        d > 0,
    ensures
        d * k <= x <==> k <= x / d,
{
    let q = x / d;
    let r = x % d;
    lemma_fundamental_div_mod(x, d);
    lemma_mod_bound(x, d);
    if d * k <= x {
        assert(k <= q) by (nonlinear_arith)
            requires
                d * k <= d * q + r,
                0 <= r < d,
                d > 0,
        ;
    }
    if k <= q {
        assert(d * k <= d * q) by (nonlinear_arith)
            requires
                k <= q,
                d > 0,
        ;
    }
}

/// The start of the UTC day that holds an instant.
pub open spec fn day_start(n: int) -> int {
    day_number(n) * NANOS_PER_DAY
}

/// The start of the week, a Monday at midnight UTC, that holds an instant.
pub open spec fn week_start(n: int) -> int {
    (week_number(n) * 7 - 3) * NANOS_PER_DAY
}

/// For daily routines the rule is the store's condition: the checktime,
/// truncated to its day, lies at or before one day before now.
pub proof fn lemma_daily_rule(checktime: i128, now: i128)
    ensures
        period_passed(Period::Daily, checktime, now) <==> day_start(checktime as int) <= now
            - NANOS_PER_DAY,
{
    let d = NANOS_PER_DAY as int;
    let kc = day_number(checktime as int);
    assert(day_start(checktime as int) == d * kc) by (nonlinear_arith)
        requires
            day_start(checktime as int) == kc * d,
    ;
    assert(d * (kc + 1) == d * kc + d) by (nonlinear_arith);
    lemma_mul_le_iff_le_div(kc + 1, now as int, d);
}

/// For weekly routines the rule is the store's condition: the checktime,
/// truncated to its week, lies at or before one week before now.
pub proof fn lemma_weekly_rule(checktime: i128, now: i128)
    ensures
        period_passed(Period::Weekly, checktime, now) <==> week_start(checktime as int) <= now - 7
            * NANOS_PER_DAY,
{
    let d = NANOS_PER_DAY as int;
    let wc = week_number(checktime as int);
    let k = 7 * (wc + 1) - 3;
    assert(week_start(checktime as int) + 7 * d == d * k) by (nonlinear_arith)
        requires
            week_start(checktime as int) == (wc * 7 - 3) * d,
            k == 7 * (wc + 1) - 3,
    ;
    lemma_mul_le_iff_le_div(k, now as int, d);
    lemma_mul_le_iff_le_div(wc + 1, day_number(now as int) + 3, 7);
    assert(7 * (wc + 1) == (wc + 1) * 7);
}

/// A daily routine checked on a day that ended more than a day before now is
/// reset; one checked today is left as it is.
pub proof fn lemma_daily_reset_boundary(r: RoutineView, now: i128)
    requires
        r.completed,
        r.kind == "daily"@,
        r.checktime is Some,
    ensures
        day_start(r.checktime->0 as int) < now - NANOS_PER_DAY ==> reset_due(r, now),
        day_start(r.checktime->0 as int) == day_start(now as int) ==> !reset_due(r, now),
{
    let c = r.checktime->0;
    lemma_daily_rule(c, now);
    let d = NANOS_PER_DAY as int;
    assert(day_start(now as int) <= now) by {
        assert(day_number(now as int) * d <= now) by (nonlinear_arith)
            requires
                day_number(now as int) == (now as int) / d,
                d > 0,
        ;
    }
    assert(now - d < day_start(now as int)) by {
        assert(now < (day_number(now as int) + 1) * d) by (nonlinear_arith)
            requires
                day_number(now as int) == (now as int) / d,
                d > 0,
        ;
    }
}

/// Once reset at `now`, a routine is not reset again within the same
/// period: at most one reset per period boundary.
pub proof fn lemma_reset_once_per_period(r: RoutineView, now: i128, later: i128)
    requires
        reset_due(r, now),
        period_of(r.kind) matches Some(p) && period_number(p, later) == period_number(p, now),
    ensures
        !reset_due(RoutineView { completed: false, checktime: Some(now), ..r }, later),
        !reset_due(RoutineView { checktime: Some(now), ..r }, later),
{
}

} // verus!
