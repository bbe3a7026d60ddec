use vstd::prelude::*;
use vstd::string::StringExecFns;
use crate::calendar::Date;
use crate::calendar::MAX_DAY_NUMBER;
use crate::calendar::UNIX_EPOCH_DAY_NUMBER;
use crate::calendar::date_le;
use crate::calendar::date_of_day_number;
use crate::calendar::day_number;
use crate::calendar::days_in_month;
use crate::calendar::spec_days_in_month;
use crate::error::ServiceError;
use crate::models::Task;
use crate::models::TimeEntry;
use crate::store::Store;
use crate::error::inverted_date_range;
use crate::error::invalid_period;
use crate::error::msg_invalid_period;
use crate::error::msg_inverted_date_range;
use crate::error::spec_bad_request;

verus! {

/// The reporting period a caller asks for: either a keyword or an explicit
/// pair of dates.
#[derive(Debug, Clone)]
pub struct AnalyticsQueryPeriod {
    pub period: Option<String>,
    pub start_date: Option<Date>,
    pub end_date: Option<Date>,
}

pub open spec fn period_is(q: AnalyticsQueryPeriod, word: Seq<char>) -> bool {
    q.period matches Some(p) && p@ == word
}

/// The day number of the Monday of the ISO week holding `d`: day 1 of the
/// proleptic Gregorian calendar is a Monday, so Mondays are exactly the days
/// whose number is 1 modulo 7.
pub open spec fn week_monday_num(d: Date) -> int {
    d.num() - ((d.num() - 1) % 7)
}

impl AnalyticsQueryPeriod {
    /// Both explicit dates are supplied, so the keyword is ignored.
    pub open spec fn explicit(self) -> bool {
        self.start_date is Some && self.end_date is Some
    }
}

/// Bounds on a valid date's day number, by the closed Gregorian formula.
proof fn lemma_day_number_bounds(d: Date)
    requires
        d.valid(),
    ensures
        1 <= d.num() <= MAX_DAY_NUMBER,
        d.year >= 2 ==> d.num() >= 365,
        d.year <= 9998 ==> d.num() <= 3651694,
{
    let y = d.year - 1;
    assert(4 * (y / 4) <= y) by {
        vstd::arithmetic::div_mod::lemma_fundamental_div_mod(y as int, 4);
        vstd::arithmetic::div_mod::lemma_mod_bound(y as int, 4);
    }
    assert(100 * (y / 100) <= y && y / 100 >= 0) by {
        vstd::arithmetic::div_mod::lemma_fundamental_div_mod(y as int, 100);
        vstd::arithmetic::div_mod::lemma_mod_bound(y as int, 100);
    }
    assert(400 * (y / 400) <= y && y / 400 >= 0) by {
        vstd::arithmetic::div_mod::lemma_fundamental_div_mod(y as int, 400);
        vstd::arithmetic::div_mod::lemma_mod_bound(y as int, 400);
    }
}

/// Resolves the requested period against "today" (in UTC) into a closed date
/// range. Explicit dates are used verbatim once their order is checked; a
/// keyword resolves relative to today; no keyword at all means this week; an
/// unknown keyword is rejected.
#[verifier::rlimit(100)]
#[verifier::spinoff_prover]
pub fn calculate_date_range(q: &AnalyticsQueryPeriod, today: Date) -> (r: Result<
    (Date, Date),
    ServiceError,
>)
    requires
        today.valid(),
        2 <= today.year <= 9998,
        q.start_date matches Some(d) ==> d.valid(),
        q.end_date matches Some(d) ==> d.valid(),
    ensures
        q.explicit() && q.start_date.unwrap().spec_le(q.end_date.unwrap()) ==> r == Ok::<
            _,
            ServiceError,
        >((q.start_date.unwrap(), q.end_date.unwrap())),
        q.explicit() && !q.start_date.unwrap().spec_le(q.end_date.unwrap()) ==> (r matches Err(e)
            && spec_bad_request(e, msg_inverted_date_range())),
        !q.explicit() && (period_is(*q, "this_week"@) || q.period is None) ==> (r matches Ok(p) && {
            &&& p.0.valid()
            &&& p.1.valid()
            &&& p.0.num() == week_monday_num(today)
            &&& p.1.num() == week_monday_num(today) + 6
        }),
        !q.explicit() && period_is(*q, "last_7_days"@) ==> (r matches Ok(p) && {
            &&& p.0.valid()
            &&& p.0.num() == today.num() - 6
            &&& p.1 == today
        }),
        !q.explicit() && period_is(*q, "this_month"@) ==> r == Ok::<_, ServiceError>(
            (
                Date { year: today.year, month: today.month, day: 1 },
                Date {
                    year: today.year,
                    month: today.month,
                    day: spec_days_in_month(today.year as int, today.month as int) as u8,
                },
            ),
        ),
        !q.explicit() && period_is(*q, "last_30_days"@) ==> (r matches Ok(p) && {
            &&& p.0.valid()
            &&& p.0.num() == today.num() - 29
            &&& p.1 == today
        }),
        !q.explicit() && !(q.period is None) && !period_is(*q, "this_week"@) && !period_is(
            *q,
            "last_7_days"@,
        ) && !period_is(*q, "this_month"@) && !period_is(*q, "last_30_days"@) ==> (r matches Err(e)
            && spec_bad_request(e, msg_invalid_period())),
{
    proof {
        lemma_day_number_bounds(today);
        reveal_strlit("this_week");
        reveal_strlit("last_7_days");
        reveal_strlit("this_month");
        reveal_strlit("last_30_days");
    }
    match (&q.start_date, &q.end_date) {
        (Some(start), Some(end)) => {
            if date_le(start, end) {
                return Ok((*start, *end));
            } else {
                return Err(inverted_date_range());
            }
        },
        _ => {},
    }
    match &q.period {
        None => Ok(this_week_of(today)),
        Some(p) => {
            if *p == String::from_str("this_week") {
                proof {
                    assert(p@ == "this_week"@);
                    assert("this_week"@.len() == 9);
                    assert(!period_is(*q, "last_7_days"@));
                    assert(!period_is(*q, "this_month"@));
                }
                Ok(this_week_of(today))
            } else if *p == String::from_str("last_7_days") {
                proof {
                    assert(p@ == "last_7_days"@);
                    assert("last_7_days"@.len() == 11);
                }
                let n = day_number(&today);
                Ok((date_of_day_number(n - 6), today))
            } else if *p == String::from_str("this_month") {
                proof {
                    assert(p@ == "this_month"@);
                    assert("this_month"@.len() == 10);
                }
                let first = Date { year: today.year, month: today.month, day: 1 };
                let last = Date {
                    year: today.year,
                    month: today.month,
                    day: days_in_month(today.year, today.month),
                };
                Ok((first, last))
            } else if *p == String::from_str("last_30_days") {
                proof {
                    assert(p@ == "last_30_days"@);
                    assert("last_30_days"@.len() == 12);
                }
                let n = day_number(&today);
                Ok((date_of_day_number(n - 29), today))
            } else {
                Err(invalid_period())
            }
        },
    }
}

/// Monday through Sunday of the ISO week holding `today`.
fn this_week_of(today: Date) -> (r: (Date, Date))
    requires
        today.valid(),
        2 <= today.year <= 9998,
    ensures
        r.0.valid(),
        r.1.valid(),
        r.0.num() == week_monday_num(today),
        r.1.num() == week_monday_num(today) + 6,
{
    proof {
        lemma_day_number_bounds(today);
    }
    let n = day_number(&today);
    let w = (n - 1) % 7;
    proof {
        vstd::arithmetic::div_mod::lemma_mod_bound(n as int - 1, 7);
    }
    let monday = date_of_day_number(n - w);
    let sunday = date_of_day_number(n - w + 6);
    (monday, sunday)
}


// --- Aggregations ---

/// A row of the time-by-project report.
#[derive(Debug, Clone)]
pub struct TimeByProjectStat {
    pub project_id: u128,
    pub project_name: String,
    pub total_duration_seconds: i128,
}

/// A row of the productivity-trend report.
#[derive(Debug, Clone, Copy, PartialEq, Eq, Structural)]
pub struct ProductivityTrendPoint {
    pub date_point: Date,
    pub total_duration_seconds: i128,
}

/// The first second of the date, relative to the Unix epoch.
pub open spec fn spec_date_start_ts(d: Date) -> int {
    (d.num() - UNIX_EPOCH_DAY_NUMBER as int) * 86400
}

/// The last second of the date, relative to the Unix epoch.
pub open spec fn spec_date_end_ts(d: Date) -> int {
    spec_date_start_ts(d) + 86399
}

/// The timestamp falls inside the closed datetime range that the date range
/// expands to: the first second of `start` through the last second of `end`.
pub open spec fn spec_in_range(t: i64, start: Date, end: Date) -> bool {
    spec_date_start_ts(start) <= t as int && t as int <= spec_date_end_ts(end)
}

/// Some task row carries this id and sits under this project.
pub open spec fn spec_task_under_project(tasks: Seq<Task>, tid: u128, pid: u128) -> bool {
    exists|j: int|
        0 <= j < tasks.len() && (#[trigger] tasks[j]).id == tid && tasks[j].project_id == Some(pid)
}

/// A missing duration counts as zero.
pub open spec fn spec_entry_duration(e: TimeEntry) -> int {
    match e.duration_seconds {
        Some(d) => d as int,
        None => 0,
    }
}

/// The entry belongs to the caller, starts inside the range, and its task
/// sits under the project.
pub open spec fn spec_counts_for_project(
    e: TimeEntry,
    tasks: Seq<Task>,
    uid: u128,
    start: Date,
    end: Date,
    pid: u128,
) -> bool {
    e.user_id == uid && spec_in_range(e.start_time, start, end) && spec_task_under_project(
        tasks,
        e.task_id,
        pid,
    )
}

/// Total seconds the caller tracked under the project inside the range.
pub open spec fn spec_project_total(
    entries: Seq<TimeEntry>,
    tasks: Seq<Task>,
    uid: u128,
    start: Date,
    end: Date,
    pid: u128,
) -> int
    decreases entries.len(),
{
    if entries.len() == 0 {
        0
    } else {
        (if spec_counts_for_project(entries[0], tasks, uid, start, end, pid) {
            spec_entry_duration(entries[0])
        } else {
            0
        }) + spec_project_total(entries.drop_first(), tasks, uid, start, end, pid)
    }
}

pub open spec fn spec_project_has_entries(
    entries: Seq<TimeEntry>,
    tasks: Seq<Task>,
    uid: u128,
    start: Date,
    end: Date,
    pid: u128,
) -> bool {
    exists|m: int|
        0 <= m < entries.len() && spec_counts_for_project(
            #[trigger] entries[m],
            tasks,
            uid,
            start,
            end,
            pid,
        )
}

/// The UTC calendar day holding the timestamp, as a day number.
pub open spec fn spec_ts_day(t: i64) -> int {
    UNIX_EPOCH_DAY_NUMBER as int + (t as int) / 86400
}

/// The entry belongs to the caller, starts inside the range, and starts on
/// the given day.
pub open spec fn spec_counts_on_day(
    e: TimeEntry,
    uid: u128,
    start: Date,
    end: Date,
    dayn: int,
) -> bool {
    e.user_id == uid && spec_in_range(e.start_time, start, end) && spec_ts_day(e.start_time)
        == dayn
}

/// Total seconds the caller tracked on the day inside the range.
pub open spec fn spec_day_total(
    entries: Seq<TimeEntry>,
    uid: u128,
    start: Date,
    end: Date,
    dayn: int,
) -> int
    decreases entries.len(),
{
    if entries.len() == 0 {
        0
    } else {
        (if spec_counts_on_day(entries[0], uid, start, end, dayn) {
            spec_entry_duration(entries[0])
        } else {
            0
        }) + spec_day_total(entries.drop_first(), uid, start, end, dayn)
    }
}

pub open spec fn spec_day_has_entries(
    entries: Seq<TimeEntry>,
    uid: u128,
    start: Date,
    end: Date,
    dayn: int,
) -> bool {
    exists|m: int|
        0 <= m < entries.len() && spec_counts_on_day(#[trigger] entries[m], uid, start, end, dayn)
}

/// The report order of time-by-project rows: largest total first.
pub open spec fn stat_sort_le(a: TimeByProjectStat, b: TimeByProjectStat) -> bool {
    a.total_duration_seconds >= b.total_duration_seconds
}

proof fn lemma_project_total_step(
    s: Seq<TimeEntry>,
    tasks: Seq<Task>,
    uid: u128,
    start: Date,
    end: Date,
    pid: u128,
    k: int,
)
    requires
        0 <= k < s.len(),
    ensures
        spec_project_total(s.skip(k), tasks, uid, start, end, pid) == (if spec_counts_for_project(
            s[k],
            tasks,
            uid,
            start,
            end,
            pid,
        ) {
            spec_entry_duration(s[k])
        } else {
            0
        }) + spec_project_total(s.skip(k + 1), tasks, uid, start, end, pid),
{
    assert(s.skip(k).drop_first() =~= s.skip(k + 1));
    assert(s.skip(k)[0] == s[k]);
}

proof fn lemma_day_total_step(
    s: Seq<TimeEntry>,
    uid: u128,
    start: Date,
    end: Date,
    dayn: int,
    k: int,
)
    requires
        0 <= k < s.len(),
    ensures
        spec_day_total(s.skip(k), uid, start, end, dayn) == (if spec_counts_on_day(
            s[k],
            uid,
            start,
            end,
            dayn,
        ) {
            spec_entry_duration(s[k])
        } else {
            0
        }) + spec_day_total(s.skip(k + 1), uid, start, end, dayn),
{
    assert(s.skip(k).drop_first() =~= s.skip(k + 1));
    assert(s.skip(k)[0] == s[k]);
}

/// The day of a timestamp is `d` exactly when the timestamp falls inside the
/// day's window of 86400 seconds.
proof fn lemma_ts_day_window(t: i64, d: int)
    ensures
        spec_ts_day(t) == d <==> ((d - UNIX_EPOCH_DAY_NUMBER as int) * 86400 <= t as int && (
        t as int) < (d + 1 - UNIX_EPOCH_DAY_NUMBER as int) * 86400),
{
    vstd::arithmetic::div_mod::lemma_fundamental_div_mod(t as int, 86400);
    vstd::arithmetic::div_mod::lemma_mod_bound(t as int, 86400);
}

/// The first second of a valid date, computed from its day number.
fn date_start_ts(d: &Date) -> (t: i64)
    requires
        d.valid(),
    ensures
        t as int == spec_date_start_ts(*d),
{
    (day_number(d) - UNIX_EPOCH_DAY_NUMBER) * 86400
}

/// Whether some task row carries this id and sits under this project; task
/// ids are unique, so the first row with the id decides.
fn task_under_project(tasks: &Vec<Task>, tid: u128, pid: u128) -> (r: bool)
    requires
        forall|i: int, j: int|
            0 <= i < j < tasks@.len() ==> (#[trigger] tasks@[i]).id != (#[trigger] tasks@[j]).id,
    ensures
        r == spec_task_under_project(tasks@, tid, pid),
{
    let mut i: usize = 0;
    while i < tasks.len()
        invariant
            i <= tasks@.len(),
            forall|j: int| 0 <= j < i ==> (#[trigger] tasks@[j]).id != tid,
            forall|i2: int, j2: int|
                0 <= i2 < j2 < tasks@.len() ==> (#[trigger] tasks@[i2]).id != (
                #[trigger] tasks@[j2]).id,
        decreases tasks@.len() - i,
    {
        if tasks[i].id == tid {
            let hit = match tasks[i].project_id {
                Some(p) => p == pid,
                None => false,
            };
            proof {
                if !hit {
                    assert forall|j: int|
                        0 <= j < tasks@.len() implies !((#[trigger] tasks@[j]).id == tid
                        && tasks@[j].project_id == Some(pid)) by {
                        if j != i as int {
                            assert(tasks@[j].id != tasks@[i as int].id);
                        }
                    }
                }
            }
            return hit;
        }
        i = i + 1;
    }
    false
}

/// The caller's total inside the range under one project, and whether any
/// entry contributed at all.
fn project_total_exec(
    entries: &Vec<TimeEntry>,
    tasks: &Vec<Task>,
    uid: u128,
    start: &Date,
    end: &Date,
    pid: u128,
) -> (r: (i128, bool))
    requires
        start.valid(),
        end.valid(),
        forall|i: int, j: int|
            0 <= i < j < tasks@.len() ==> (#[trigger] tasks@[i]).id != (#[trigger] tasks@[j]).id,
    ensures
        r.0 == spec_project_total(entries@, tasks@, uid, *start, *end, pid),
        r.1 == spec_project_has_entries(entries@, tasks@, uid, *start, *end, pid),
{
    let lo = date_start_ts(start);
    let hi = date_start_ts(end) + 86399;
    let mut total: i128 = 0;
    let mut any = false;
    let mut k: usize = 0;
    proof {
        assert(entries@.skip(0) =~= entries@);
    }
    while k < entries.len()
        invariant
            k <= entries@.len(),
            lo as int == spec_date_start_ts(*start),
            hi as int == spec_date_end_ts(*end),
            start.valid(),
            end.valid(),
            forall|i: int, j: int|
                0 <= i < j < tasks@.len() ==> (#[trigger] tasks@[i]).id != (
                #[trigger] tasks@[j]).id,
            spec_project_total(entries@, tasks@, uid, *start, *end, pid) - total
                == spec_project_total(entries@.skip(k as int), tasks@, uid, *start, *end, pid),
            -(k as int) * 0x8000_0000_0000_0000 <= total <= (k as int) * 0x7fff_ffff_ffff_ffff,
            any <==> exists|m: int|
                0 <= m < k && spec_counts_for_project(
                    #[trigger] entries@[m],
                    tasks@,
                    uid,
                    *start,
                    *end,
                    pid,
                ),
        decreases entries@.len() - k,
    {
        proof {
            lemma_project_total_step(entries@, tasks@, uid, *start, *end, pid, k as int);
        }
        let e = &entries[k];
        if e.user_id == uid && lo <= e.start_time && e.start_time <= hi && task_under_project(
            tasks,
            e.task_id,
            pid,
        ) {
            let d: i128 = match e.duration_seconds {
                Some(d) => d as i128,
                None => 0,
            };
            total = total + d;
            any = true;
        }
        k = k + 1;
    }
    proof {
        assert(entries@.skip(entries@.len() as int) =~= Seq::<TimeEntry>::empty());
    }
    (total, any)
}

/// The caller's total inside the range on one day, and whether any entry
/// contributed at all.
fn day_total_exec(entries: &Vec<TimeEntry>, uid: u128, start: &Date, end: &Date, dayn: i64) -> (r: (
    i128,
    bool,
))
    requires
        start.valid(),
        end.valid(),
        1 <= dayn <= MAX_DAY_NUMBER,
    ensures
        r.0 == spec_day_total(entries@, uid, *start, *end, dayn as int),
        r.1 == spec_day_has_entries(entries@, uid, *start, *end, dayn as int),
{
    let lo = date_start_ts(start);
    let hi = date_start_ts(end) + 86399;
    let day_lo = (dayn - UNIX_EPOCH_DAY_NUMBER) * 86400;
    let mut total: i128 = 0;
    let mut any = false;
    let mut k: usize = 0;
    proof {
        assert(entries@.skip(0) =~= entries@);
    }
    while k < entries.len()
        invariant
            k <= entries@.len(),
            lo as int == spec_date_start_ts(*start),
            hi as int == spec_date_end_ts(*end),
            day_lo as int == (dayn as int - UNIX_EPOCH_DAY_NUMBER as int) * 86400,
            1 <= dayn <= MAX_DAY_NUMBER,
            start.valid(),
            end.valid(),
            spec_day_total(entries@, uid, *start, *end, dayn as int) - total == spec_day_total(
                entries@.skip(k as int),
                uid,
                *start,
                *end,
                dayn as int,
            ),
            -(k as int) * 0x8000_0000_0000_0000 <= total <= (k as int) * 0x7fff_ffff_ffff_ffff,
            any <==> exists|m: int|
                0 <= m < k && spec_counts_on_day(
                    #[trigger] entries@[m],
                    uid,
                    *start,
                    *end,
                    dayn as int,
                ),
        decreases entries@.len() - k,
    {
        proof {
            lemma_day_total_step(entries@, uid, *start, *end, dayn as int, k as int);
            lemma_ts_day_window(entries@[k as int].start_time, dayn as int);
        }
        let e = &entries[k];
        if e.user_id == uid && lo <= e.start_time && e.start_time <= hi && day_lo <= e.start_time
            && e.start_time < day_lo + 86400 {
            let d: i128 = match e.duration_seconds {
                Some(d) => d as i128,
                None => 0,
            };
            total = total + d;
            any = true;
        }
        k = k + 1;
    }
    proof {
        assert(entries@.skip(entries@.len() as int) =~= Seq::<TimeEntry>::empty());
    }
    (total, any)
}

/// Reorders the report rows by total, largest first, keeping every row and
/// the uniqueness of the project ids.
fn sort_stats(v: Vec<TimeByProjectStat>) -> (r: Vec<TimeByProjectStat>)
    requires
        forall|i: int, j: int|
            0 <= i < j < v@.len() ==> (#[trigger] v@[i]).project_id != (#[trigger] v@[j]).project_id,
    ensures
        r@.to_multiset() == v@.to_multiset(),
        forall|i: int, j: int| 0 <= i <= j < r@.len() ==> stat_sort_le(#[trigger] r@[i], #[trigger] r@[j]),
        forall|i: int, j: int|
            0 <= i < j < r@.len() ==> (#[trigger] r@[i]).project_id != (#[trigger] r@[j]).project_id,
{
    broadcast use vstd::seq_lib::group_to_multiset_ensures;

    let mut rest = v;
    let mut out: Vec<TimeByProjectStat> = Vec::new();
    while rest.len() > 0
        invariant
            out@.to_multiset().add(rest@.to_multiset()) == v@.to_multiset(),
            forall|i: int, j: int|
                0 <= i <= j < out@.len() ==> stat_sort_le(#[trigger] out@[i], #[trigger] out@[j]),
            forall|i: int, j: int|
                0 <= i < out@.len() && 0 <= j < rest@.len() ==> stat_sort_le(
                    #[trigger] out@[i],
                    #[trigger] rest@[j],
                ),
            forall|i: int, j: int|
                0 <= i < j < out@.len() ==> (#[trigger] out@[i]).project_id != (
                #[trigger] out@[j]).project_id,
            forall|i: int, j: int|
                0 <= i < j < rest@.len() ==> (#[trigger] rest@[i]).project_id != (
                #[trigger] rest@[j]).project_id,
            forall|i: int, j: int|
                0 <= i < out@.len() && 0 <= j < rest@.len() ==> (
                #[trigger] out@[i]).project_id != (#[trigger] rest@[j]).project_id,
        decreases rest@.len(),
    {
        let mut m: usize = 0;
        let mut k: usize = 1;
        while k < rest.len()
            invariant
                m < k <= rest@.len(),
                rest@.len() > 0,
                forall|j: int| 0 <= j < k ==> stat_sort_le(rest@[m as int], #[trigger] rest@[j]),
            decreases rest@.len() - k,
        {
            if !(rest[m].total_duration_seconds >= rest[k].total_duration_seconds) {
                m = k;
            }
            k = k + 1;
        }
        let ghost old_out = out@;
        let ghost old_rest = rest@;
        let t = rest.remove(m);
        out.push(t);
        proof {
            old_rest.to_multiset_ensures();
            old_out.to_multiset_ensures();
            assert(old_rest.contains(t));
            assert(out@.to_multiset() =~= old_out.to_multiset().insert(t));
            assert(rest@.to_multiset() =~= old_rest.to_multiset().remove(t));
            assert(out@.to_multiset().add(rest@.to_multiset()) =~= v@.to_multiset());
            assert(forall|j: int|
                0 <= j < rest@.len() ==> #[trigger] rest@[j] == old_rest[
                    if j < m {
                        j
                    } else {
                        j + 1
                    }
                ]);
            assert forall|i: int, j: int|
                0 <= i < out@.len() && 0 <= j < rest@.len() implies stat_sort_le(
                #[trigger] out@[i],
                #[trigger] rest@[j],
            ) by {
                let oj = if j < m { j } else { j + 1 };
                if i < out@.len() - 1 {
                    assert(stat_sort_le(old_out[i], old_rest[oj]));
                } else {
                    assert(stat_sort_le(old_rest[m as int], old_rest[oj]));
                }
            }
            assert forall|i: int, j: int|
                0 <= i <= j < out@.len() implies stat_sort_le(
                #[trigger] out@[i],
                #[trigger] out@[j],
            ) by {
                if j < out@.len() - 1 {
                    assert(stat_sort_le(old_out[i], old_out[j]));
                } else if i < j {
                    assert(stat_sort_le(old_out[i], old_rest[m as int]));
                }
            }
            assert forall|i: int, j: int|
                0 <= i < j < out@.len() implies (#[trigger] out@[i]).project_id != (
            #[trigger] out@[j]).project_id by {
                if j == out@.len() - 1 {
                    assert(out@[i] == old_out[i]);
                    assert(out@[j] == old_rest[m as int]);
                }
            }
            assert forall|i: int, j: int|
                0 <= i < out@.len() && 0 <= j < rest@.len() implies (
            #[trigger] out@[i]).project_id != (#[trigger] rest@[j]).project_id by {
                let oj = if j < m { j } else { j + 1 };
                if i == out@.len() - 1 {
                    assert(out@[i] == old_rest[m as int]);
                    assert(rest@[j] == old_rest[oj]);
                }
            }
        }
    }
    out
}

impl Store {
    /// Sums the caller's tracked seconds inside the range per project, from
    /// entries whose task sits under a project that exists; entries whose
    /// task has no project are excluded. Rows come largest total first, and
    /// only projects with at least one counted entry appear.
    pub fn time_by_project(&self, uid: u128, start: Date, end: Date) -> (r: Vec<TimeByProjectStat>)
        requires
            self.wf(),
            start.valid(),
            end.valid(),
        ensures
            forall|a: int|
                0 <= a < r@.len() ==> {
                    let row = #[trigger] r@[a];
                    &&& exists|k: int|
                        0 <= k < self.projects@.len() && (#[trigger] self.projects@[k]).id
                            == row.project_id && self.projects@[k].name == row.project_name
                    &&& row.total_duration_seconds == spec_project_total(
                        self.time_entries@,
                        self.tasks@,
                        uid,
                        start,
                        end,
                        row.project_id,
                    )
                    &&& spec_project_has_entries(
                        self.time_entries@,
                        self.tasks@,
                        uid,
                        start,
                        end,
                        row.project_id,
                    )
                },
            forall|a: int, b: int|
                0 <= a < b < r@.len() ==> (#[trigger] r@[a]).project_id != (
                #[trigger] r@[b]).project_id,
            forall|k: int|
                0 <= k < self.projects@.len() && spec_project_has_entries(
                    self.time_entries@,
                    self.tasks@,
                    uid,
                    start,
                    end,
                    (#[trigger] self.projects@[k]).id,
                ) ==> exists|a: int|
                    0 <= a < r@.len() && (#[trigger] r@[a]).project_id == self.projects@[k].id,
            forall|a: int, b: int|
                0 <= a <= b < r@.len() ==> (#[trigger] r@[a]).total_duration_seconds >= (
                #[trigger] r@[b]).total_duration_seconds,
    {
        let mut rows: Vec<TimeByProjectStat> = Vec::new();
        let mut ip: usize = 0;
        while ip < self.projects.len()
            invariant
                ip <= self.projects@.len(),
                self.wf(),
                start.valid(),
                end.valid(),
                forall|a: int|
                    0 <= a < rows@.len() ==> {
                        let row = #[trigger] rows@[a];
                        &&& exists|k: int|
                            0 <= k < ip && (#[trigger] self.projects@[k]).id == row.project_id
                                && self.projects@[k].name == row.project_name
                        &&& row.total_duration_seconds == spec_project_total(
                            self.time_entries@,
                            self.tasks@,
                            uid,
                            start,
                            end,
                            row.project_id,
                        )
                        &&& spec_project_has_entries(
                            self.time_entries@,
                            self.tasks@,
                            uid,
                            start,
                            end,
                            row.project_id,
                        )
                    },
                forall|a: int, b: int|
                    0 <= a < b < rows@.len() ==> (#[trigger] rows@[a]).project_id != (
                    #[trigger] rows@[b]).project_id,
                forall|k: int|
                    0 <= k < ip && spec_project_has_entries(
                        self.time_entries@,
                        self.tasks@,
                        uid,
                        start,
                        end,
                        (#[trigger] self.projects@[k]).id,
                    ) ==> exists|a: int|
                        0 <= a < rows@.len() && (#[trigger] rows@[a]).project_id
                            == self.projects@[k].id,
            decreases self.projects@.len() - ip,
        {
            let ghost rows_before = rows@;
            let p = &self.projects[ip];
            let (total, any) = project_total_exec(
                &self.time_entries,
                &self.tasks,
                uid,
                &start,
                &end,
                p.id,
            );
            if any {
                let ghost old_rows = rows@;
                rows.push(
                    TimeByProjectStat {
                        project_id: p.id,
                        project_name: p.name.clone(),
                        total_duration_seconds: total,
                    },
                );
                proof {
                    assert forall|a: int, b: int|
                        0 <= a < b < rows@.len() implies (#[trigger] rows@[a]).project_id != (
                    #[trigger] rows@[b]).project_id by {
                        if b == rows@.len() - 1 {
                            let row = rows@[a];
                            assert(exists|k: int|
                                0 <= k < ip && (#[trigger] self.projects@[k]).id == row.project_id
                                    && self.projects@[k].name == row.project_name);
                            let k = choose|k: int|
                                0 <= k < ip && (#[trigger] self.projects@[k]).id == row.project_id
                                    && self.projects@[k].name == row.project_name;
                            assert(self.projects@[k].id != self.projects@[ip as int].id);
                        }
                    }
                }
            }
            proof {
                assert forall|k: int|
                    0 <= k < ip + 1 && spec_project_has_entries(
                        self.time_entries@,
                        self.tasks@,
                        uid,
                        start,
                        end,
                        (#[trigger] self.projects@[k]).id,
                    ) implies exists|a: int|
                    0 <= a < rows@.len() && (#[trigger] rows@[a]).project_id
                        == self.projects@[k].id by {
                    if k < ip {
                        let a = choose|a: int|
                            0 <= a < rows_before.len() && (#[trigger] rows_before[a]).project_id
                                == self.projects@[k].id;
                        assert(rows@[a].project_id == self.projects@[k].id);
                    } else {
                        assert(rows@[rows@.len() - 1].project_id == self.projects@[k].id);
                    }
                }
            }
            ip = ip + 1;
        }
        let ghost unsorted = rows@;
        let sorted = sort_stats(rows);
        proof {
            broadcast use vstd::seq_lib::group_to_multiset_ensures;

            assert forall|a: int| 0 <= a < sorted@.len() implies {
                let row = #[trigger] sorted@[a];
                &&& exists|k: int|
                    0 <= k < self.projects@.len() && (#[trigger] self.projects@[k]).id
                        == row.project_id && self.projects@[k].name == row.project_name
                &&& row.total_duration_seconds == spec_project_total(
                    self.time_entries@,
                    self.tasks@,
                    uid,
                    start,
                    end,
                    row.project_id,
                )
                &&& spec_project_has_entries(
                    self.time_entries@,
                    self.tasks@,
                    uid,
                    start,
                    end,
                    row.project_id,
                )
            } by {
                let row = sorted@[a];
                assert(sorted@.to_multiset().count(row) > 0);
                assert(unsorted.contains(row));
            }
            assert forall|k: int|
                0 <= k < self.projects@.len() && spec_project_has_entries(
                    self.time_entries@,
                    self.tasks@,
                    uid,
                    start,
                    end,
                    (#[trigger] self.projects@[k]).id,
                ) implies exists|a: int|
                0 <= a < sorted@.len() && (#[trigger] sorted@[a]).project_id
                    == self.projects@[k].id by {
                let a0 = choose|a0: int|
                    0 <= a0 < unsorted.len() && (#[trigger] unsorted[a0]).project_id
                        == self.projects@[k].id;
                assert(unsorted.contains(unsorted[a0]));
                assert(unsorted.to_multiset().count(unsorted[a0]) > 0);
                assert(sorted@.contains(unsorted[a0]));
                let a = choose|a: int| 0 <= a < sorted@.len() && #[trigger] sorted@[a] == unsorted[a0];
                assert(sorted@[a].project_id == self.projects@[k].id);
            }
        }
        sorted
    }

    /// Sums the caller's tracked seconds inside the range per UTC calendar
    /// day of the start time. Rows come in date order, one per day that has
    /// at least one counted entry.
    pub fn productivity_trend(&self, uid: u128, start: Date, end: Date) -> (r: Vec<
        ProductivityTrendPoint,
    >)
        requires
            self.wf(),
            start.valid(),
            end.valid(),
        ensures
            forall|a: int|
                0 <= a < r@.len() ==> {
                    let row = #[trigger] r@[a];
                    &&& row.date_point.valid()
                    &&& row.total_duration_seconds == spec_day_total(
                        self.time_entries@,
                        uid,
                        start,
                        end,
                        row.date_point.num(),
                    )
                    &&& spec_day_has_entries(
                        self.time_entries@,
                        uid,
                        start,
                        end,
                        row.date_point.num(),
                    )
                },
            forall|a: int, b: int|
                0 <= a < b < r@.len() ==> (#[trigger] r@[a]).date_point.num() < (
                #[trigger] r@[b]).date_point.num(),
            forall|dayn: int|
                spec_day_has_entries(self.time_entries@, uid, start, end, dayn) ==> exists|a: int|
                    0 <= a < r@.len() && (#[trigger] r@[a]).date_point.num() == dayn,
    {
        let n_start = day_number(&start);
        let n_end = day_number(&end);
        let mut rows: Vec<ProductivityTrendPoint> = Vec::new();
        let mut d = n_start;
        while d <= n_end
            invariant
                n_start <= d,
                n_start as int == start.num(),
                n_end as int == end.num(),
                1 <= n_start <= MAX_DAY_NUMBER,
                1 <= n_end <= MAX_DAY_NUMBER,
                d <= n_end + 1 || d == n_start,
                self.wf(),
                start.valid(),
                end.valid(),
                forall|a: int|
                    0 <= a < rows@.len() ==> {
                        let row = #[trigger] rows@[a];
                        &&& row.date_point.valid()
                        &&& n_start <= row.date_point.num() < d
                        &&& row.total_duration_seconds == spec_day_total(
                            self.time_entries@,
                            uid,
                            start,
                            end,
                            row.date_point.num(),
                        )
                        &&& spec_day_has_entries(
                            self.time_entries@,
                            uid,
                            start,
                            end,
                            row.date_point.num(),
                        )
                    },
                forall|a: int, b: int|
                    0 <= a < b < rows@.len() ==> (#[trigger] rows@[a]).date_point.num() < (
                    #[trigger] rows@[b]).date_point.num(),
                forall|dayn: int|
                    n_start <= dayn < d && spec_day_has_entries(
                        self.time_entries@,
                        uid,
                        start,
                        end,
                        dayn,
                    ) ==> exists|a: int|
                        0 <= a < rows@.len() && (#[trigger] rows@[a]).date_point.num() == dayn,
            decreases n_end + 1 - d,
        {
            let ghost rows_before = rows@;
            let (total, any) = day_total_exec(&self.time_entries, uid, &start, &end, d);
            if any {
                let date_point = date_of_day_number(d);
                rows.push(ProductivityTrendPoint { date_point, total_duration_seconds: total });
            }
            proof {
                assert forall|dayn: int|
                    n_start <= dayn < d + 1 && spec_day_has_entries(
                        self.time_entries@,
                        uid,
                        start,
                        end,
                        dayn,
                    ) implies exists|a: int|
                    0 <= a < rows@.len() && (#[trigger] rows@[a]).date_point.num() == dayn by {
                    if dayn < d {
                        let a = choose|a: int|
                            0 <= a < rows_before.len() && (
                            #[trigger] rows_before[a]).date_point.num() == dayn;
                        assert(rows@[a].date_point.num() == dayn);
                    } else {
                        assert(rows@[rows@.len() - 1].date_point.num() == dayn);
                    }
                }
            }
            d = d + 1;
        }
        proof {
            assert forall|dayn: int|
                spec_day_has_entries(self.time_entries@, uid, start, end, dayn) implies exists|
                a: int,
            |
                0 <= a < rows@.len() && (#[trigger] rows@[a]).date_point.num() == dayn by {
                let m = choose|m: int|
                    0 <= m < self.time_entries@.len() && spec_counts_on_day(
                        #[trigger] self.time_entries@[m],
                        uid,
                        start,
                        end,
                        dayn,
                    );
                lemma_ts_day_window(self.time_entries@[m].start_time, dayn);
                assert(n_start as int <= dayn <= n_end as int);
                assert(dayn < d as int);
            }
        }
        rows
    }
}

} // verus!
