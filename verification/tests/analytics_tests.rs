use chrono::Datelike;
use optitask::analytics::AnalyticsQueryPeriod;
use optitask::analytics::calculate_date_range;
use optitask::calendar::Date;
use optitask::calendar::date_of_day_number;
use optitask::calendar::day_number;
use optitask::calendar::days_in_month;
use optitask::error::ServiceError;
use optitask::models::NewProject;
use optitask::models::NewTask;
use optitask::models::NewTimeEntry;
use optitask::store::Store;

const ALICE: u128 = 9;

fn d(y: i32, m: u8, day: u8) -> Date {
    Date { year: y, month: m, day }
}

fn ts(y: i32, m: u32, day: u32, hh: u32, mm: u32, ss: u32) -> i64 {
    chrono::NaiveDate::from_ymd_opt(y, m, day)
        .unwrap()
        .and_hms_opt(hh, mm, ss)
        .unwrap()
        .and_utc()
        .timestamp()
}

fn period(p: &str) -> AnalyticsQueryPeriod {
    AnalyticsQueryPeriod { period: Some(p.to_string()), start_date: None, end_date: None }
}

#[test]
fn day_number_agrees_with_chrono() {
    for (y, m, day) in
        [(1, 1, 1), (1970, 1, 1), (2000, 2, 29), (2024, 3, 15), (2024, 12, 31), (9999, 12, 31)]
    {
        let ours = day_number(&d(y, m as u8, day as u8));
        let chronos =
            chrono::NaiveDate::from_ymd_opt(y, m, day).unwrap().num_days_from_ce() as i64;
        assert_eq!(ours, chronos, "day number of {:04}-{:02}-{:02}", y, m, day);
    }
}

#[test]
fn date_of_day_number_inverts_day_number() {
    for (y, m, day) in [(1970, 1, 1), (2024, 2, 29), (2025, 12, 31)] {
        let n = day_number(&d(y, m, day));
        let back = date_of_day_number(n);
        assert_eq!((back.year, back.month, back.day), (y, m, day));
    }
}

#[test]
fn days_in_month_handles_leap_years() {
    assert_eq!(days_in_month(2024, 2), 29);
    assert_eq!(days_in_month(2023, 2), 28);
    assert_eq!(days_in_month(1900, 2), 28);
    assert_eq!(days_in_month(2000, 2), 29);
    assert_eq!(days_in_month(2024, 4), 30);
    assert_eq!(days_in_month(2024, 12), 31);
}

#[test]
fn this_week_resolves_to_monday_through_sunday() {
    // 2024-03-15 is a Friday.
    let today = d(2024, 3, 15);
    let q = period("this_week");
    let (start, end) = calculate_date_range(&q, today).unwrap();
    assert_eq!((start.year, start.month, start.day), (2024, 3, 11));
    assert_eq!((end.year, end.month, end.day), (2024, 3, 17));
}

#[test]
fn this_month_resolves_to_calendar_month() {
    let (start, end) = calculate_date_range(&period("this_month"), d(2024, 3, 15)).unwrap();
    assert_eq!((start.year, start.month, start.day), (2024, 3, 1));
    assert_eq!((end.year, end.month, end.day), (2024, 3, 31));
    // December rolls over into the new year's January 1 minus a day.
    let (start, end) = calculate_date_range(&period("this_month"), d(2023, 12, 31)).unwrap();
    assert_eq!((start.year, start.month, start.day), (2023, 12, 1));
    assert_eq!((end.year, end.month, end.day), (2023, 12, 31));
}

#[test]
fn last_7_and_last_30_days_count_back_from_today() {
    let (start, end) = calculate_date_range(&period("last_7_days"), d(2024, 3, 15)).unwrap();
    assert_eq!((start.year, start.month, start.day), (2024, 3, 9));
    assert_eq!((end.year, end.month, end.day), (2024, 3, 15));
    let (start, end) = calculate_date_range(&period("last_30_days"), d(2024, 3, 15)).unwrap();
    assert_eq!((start.year, start.month, start.day), (2024, 2, 15));
    assert_eq!((end.year, end.month, end.day), (2024, 3, 15));
}

#[test]
fn missing_period_defaults_to_this_week() {
    let q = AnalyticsQueryPeriod { period: None, start_date: None, end_date: None };
    let (start, end) = calculate_date_range(&q, d(2024, 3, 15)).unwrap();
    assert_eq!((start.year, start.month, start.day), (2024, 3, 11));
    assert_eq!((end.year, end.month, end.day), (2024, 3, 17));
}

#[test]
fn invalid_period_is_bad_request() {
    let r = calculate_date_range(&period("invalid_value"), d(2024, 3, 15));
    assert!(matches!(r, Err(ServiceError::BadRequest(_))));
}

#[test]
fn explicit_dates_are_used_verbatim_and_order_checked() {
    let q = AnalyticsQueryPeriod {
        period: Some("this_week".to_string()),
        start_date: Some(d(2024, 1, 10)),
        end_date: Some(d(2024, 1, 20)),
    };
    let (start, end) = calculate_date_range(&q, d(2024, 3, 15)).unwrap();
    assert_eq!((start.month, start.day), (1, 10));
    assert_eq!((end.month, end.day), (1, 20));

    let inverted = AnalyticsQueryPeriod {
        period: None,
        start_date: Some(d(2024, 1, 20)),
        end_date: Some(d(2024, 1, 10)),
    };
    match calculate_date_range(&inverted, d(2024, 3, 15)) {
        Err(ServiceError::BadRequest(msg)) => {
            assert_eq!(msg, "start_date cannot be after end_date");
        },
        other => panic!("expected BadRequest, got {:?}", other),
    }
}

fn store_with_tracked_time() -> (Store, u128, u128) {
    let mut s = Store::new();
    let p1 = s
        .create_project(NewProject { user_id: ALICE, name: "Deep Work".to_string(), color: None }, 0)
        .unwrap();
    let p2 = s
        .create_project(NewProject { user_id: ALICE, name: "Admin".to_string(), color: None }, 0)
        .unwrap();
    let mk_task = |s: &mut Store, pid: Option<u128>, title: &str| {
        s.create_task(
            NewTask {
                user_id: ALICE,
                project_id: pid,
                title: title.to_string(),
                description: None,
                status: None,
                due_date: None,
                order: None,
            },
            0,
        )
        .unwrap()
        .id
    };
    let t1 = mk_task(&mut s, Some(p1.id), "a");
    let t2 = mk_task(&mut s, Some(p1.id), "b");
    let t3 = mk_task(&mut s, None, "floating");
    let t4 = mk_task(&mut s, Some(p2.id), "admin");
    let mk_entry = |s: &mut Store, task_id: u128, start: i64, dur: i64| {
        s.create_time_entry(
            NewTimeEntry {
                user_id: ALICE,
                task_id,
                start_time: start,
                end_time: None,
                duration_seconds: Some(dur),
                is_pomodoro_session: None,
            },
            0,
        )
        .unwrap();
    };
    mk_entry(&mut s, t1, ts(2024, 3, 12, 9, 0, 0), 600);
    mk_entry(&mut s, t2, ts(2024, 3, 13, 9, 0, 0), 900);
    mk_entry(&mut s, t3, ts(2024, 3, 13, 10, 0, 0), 5000);
    mk_entry(&mut s, t4, ts(2024, 3, 14, 9, 0, 0), 120);
    // Outside the queried range.
    mk_entry(&mut s, t1, ts(2024, 4, 1, 9, 0, 0), 7777);
    (s, p1.id, p2.id)
}

#[test]
fn time_by_project_groups_sums_and_orders() {
    let (s, p1, p2) = store_with_tracked_time();
    let rows = s.time_by_project(ALICE, d(2024, 3, 11), d(2024, 3, 17));
    assert_eq!(rows.len(), 2);
    assert_eq!(rows[0].project_id, p1);
    assert_eq!(rows[0].project_name, "Deep Work");
    assert_eq!(rows[0].total_duration_seconds, 1500);
    assert_eq!(rows[1].project_id, p2);
    assert_eq!(rows[1].total_duration_seconds, 120);
}

#[test]
fn time_by_project_excludes_entries_without_project_entirely() {
    let (s, p1, p2) = store_with_tracked_time();
    let rows = s.time_by_project(ALICE, d(2024, 3, 11), d(2024, 3, 17));
    let total: i128 = rows.iter().map(|r| r.total_duration_seconds).sum();
    // 600 + 900 + 120; the 5000-second entry has no project and is excluded.
    assert_eq!(total, 1620);
    assert!(rows.iter().all(|r| r.project_id == p1 || r.project_id == p2));
}

#[test]
fn time_by_project_is_scoped_to_the_caller() {
    let (s, _, _) = store_with_tracked_time();
    assert_eq!(s.time_by_project(777, d(2024, 3, 11), d(2024, 3, 17)).len(), 0);
}

#[test]
fn productivity_trend_groups_by_day_in_date_order() {
    let (s, _, _) = store_with_tracked_time();
    let rows = s.productivity_trend(ALICE, d(2024, 3, 11), d(2024, 3, 17));
    assert_eq!(rows.len(), 3);
    assert_eq!((rows[0].date_point.month, rows[0].date_point.day), (3, 12));
    assert_eq!(rows[0].total_duration_seconds, 600);
    assert_eq!((rows[1].date_point.month, rows[1].date_point.day), (3, 13));
    assert_eq!(rows[1].total_duration_seconds, 5900);
    assert_eq!((rows[2].date_point.month, rows[2].date_point.day), (3, 14));
    assert_eq!(rows[2].total_duration_seconds, 120);
}

#[test]
fn missing_duration_counts_as_zero_in_aggregates() {
    let mut s = Store::new();
    let p = s
        .create_project(NewProject { user_id: ALICE, name: "Zeroes".to_string(), color: None }, 0)
        .unwrap();
    let t = s
        .create_task(
            NewTask {
                user_id: ALICE,
                project_id: Some(p.id),
                title: "t".to_string(),
                description: None,
                status: None,
                due_date: None,
                order: None,
            },
            0,
        )
        .unwrap();
    s.create_time_entry(
        NewTimeEntry {
            user_id: ALICE,
            task_id: t.id,
            start_time: ts(2024, 3, 12, 9, 0, 0),
            end_time: None,
            duration_seconds: None,
            is_pomodoro_session: None,
        },
        0,
    )
    .unwrap();
    let rows = s.time_by_project(ALICE, d(2024, 3, 11), d(2024, 3, 17));
    assert_eq!(rows.len(), 1);
    assert_eq!(rows[0].total_duration_seconds, 0);
}

#[test]
fn error_status_codes_and_user_facing_messages() {
    let nf = ServiceError::NotFound("Task not found or not owned by user".to_string());
    assert_eq!(nf.status_code(), 404);
    assert_eq!(nf.user_facing_message(), "Task not found or not owned by user");

    let bad = ServiceError::BadRequest("start_date cannot be after end_date".to_string());
    assert_eq!(bad.status_code(), 400);
    assert_eq!(bad.user_facing_message(), "start_date cannot be after end_date");

    let unauthorized = ServiceError::Unauthorized("Missing or invalid X-User-Id header".to_string());
    assert_eq!(unauthorized.status_code(), 401);

    for server in [
        ServiceError::InternalServerError("boom".to_string()),
        ServiceError::DatabaseError("constraint".to_string()),
        ServiceError::PoolError("exhausted".to_string()),
    ] {
        assert_eq!(server.status_code(), 500);
        assert_eq!(
            server.user_facing_message(),
            "An internal server error occurred. Please try again later."
        );
    }
}

#[test]
fn productivity_trend_skips_days_without_entries() {
    let mut s = Store::new();
    let t = s
        .create_task(
            NewTask {
                user_id: ALICE,
                project_id: None,
                title: "gaps".to_string(),
                description: None,
                status: None,
                due_date: None,
                order: None,
            },
            0,
        )
        .unwrap();
    let mk = |s: &mut Store, start: i64| {
        s.create_time_entry(
            NewTimeEntry {
                user_id: ALICE,
                task_id: t.id,
                start_time: start,
                end_time: None,
                duration_seconds: Some(60),
                is_pomodoro_session: None,
            },
            0,
        )
        .unwrap();
    };
    mk(&mut s, ts(2024, 3, 12, 8, 0, 0));
    mk(&mut s, ts(2024, 3, 14, 8, 0, 0));
    let rows = s.productivity_trend(ALICE, d(2024, 3, 11), d(2024, 3, 17));
    assert_eq!(rows.len(), 2);
    assert_eq!(rows[0].date_point.day, 12);
    assert_eq!(rows[1].date_point.day, 14);
}

#[test]
fn productivity_trend_is_scoped_to_the_caller() {
    let (s, _, _) = store_with_tracked_time();
    assert_eq!(s.productivity_trend(777, d(2024, 3, 11), d(2024, 3, 17)).len(), 0);
}
