use optitask::error::ServiceError;
use optitask::models::FieldUpdate;
use optitask::models::ListTimeEntriesQuery;
use optitask::models::NewLabel;
use optitask::models::NewTask;
use optitask::models::NewTimeEntry;
use optitask::models::UpdateTimeEntryPayload;
use optitask::store::Store;

const ALICE: u128 = 1;
const BOB: u128 = 2;

fn ts(y: i32, m: u32, d: u32, hh: u32, mm: u32, ss: u32) -> i64 {
    chrono::NaiveDate::from_ymd_opt(y, m, d)
        .unwrap()
        .and_hms_opt(hh, mm, ss)
        .unwrap()
        .and_utc()
        .timestamp()
}

fn task_for(s: &mut Store, user_id: u128, title: &str) -> u128 {
    s.create_task(
        NewTask {
            user_id,
            project_id: None,
            title: title.to_string(),
            description: None,
            status: None,
            due_date: None,
            order: None,
        },
        0,
    )
    .unwrap()
    .id
}

#[test]
fn missing_duration_is_derived_from_start_and_end() {
    let mut s = Store::new();
    let tid = task_for(&mut s, ALICE, "Focus");
    let start = ts(2024, 1, 1, 10, 0, 0);
    let end = ts(2024, 1, 1, 10, 30, 0);
    let e = s
        .create_time_entry(
            NewTimeEntry {
                user_id: ALICE,
                task_id: tid,
                start_time: start,
                end_time: Some(end),
                duration_seconds: None,
                is_pomodoro_session: None,
            },
            0,
        )
        .unwrap();
    assert_eq!(e.duration_seconds, Some(1800));
    assert!(!e.is_pomodoro_session);
}

#[test]
fn explicit_duration_wins_over_derivation() {
    let mut s = Store::new();
    let tid = task_for(&mut s, ALICE, "Focus");
    let start = ts(2024, 1, 1, 10, 0, 0);
    let end = ts(2024, 1, 1, 10, 30, 0);
    let e = s
        .create_time_entry(
            NewTimeEntry {
                user_id: ALICE,
                task_id: tid,
                start_time: start,
                end_time: Some(end),
                duration_seconds: Some(999),
                is_pomodoro_session: Some(true),
            },
            0,
        )
        .unwrap();
    assert_eq!(e.duration_seconds, Some(999));
    assert!(e.is_pomodoro_session);
}

#[test]
fn end_not_after_start_derives_nothing() {
    let mut s = Store::new();
    let tid = task_for(&mut s, ALICE, "Zero");
    let start = ts(2024, 1, 1, 10, 0, 0);
    let e = s
        .create_time_entry(
            NewTimeEntry {
                user_id: ALICE,
                task_id: tid,
                start_time: start,
                end_time: Some(start),
                duration_seconds: None,
                is_pomodoro_session: None,
            },
            0,
        )
        .unwrap();
    assert_eq!(e.duration_seconds, None);
}

#[test]
fn time_entry_for_foreign_task_is_not_found() {
    let mut s = Store::new();
    let theirs = task_for(&mut s, BOB, "Not yours");
    let r = s.create_time_entry(
        NewTimeEntry {
            user_id: ALICE,
            task_id: theirs,
            start_time: 0,
            end_time: None,
            duration_seconds: None,
            is_pomodoro_session: None,
        },
        0,
    );
    assert!(matches!(r, Err(ServiceError::NotFound(_))));
}

#[test]
fn update_derives_duration_against_stored_start() {
    let mut s = Store::new();
    let tid = task_for(&mut s, ALICE, "Adjust");
    let start = ts(2024, 1, 1, 9, 0, 0);
    let e = s
        .create_time_entry(
            NewTimeEntry {
                user_id: ALICE,
                task_id: tid,
                start_time: start,
                end_time: None,
                duration_seconds: None,
                is_pomodoro_session: None,
            },
            0,
        )
        .unwrap();
    let end = ts(2024, 1, 1, 9, 45, 0);
    let p = UpdateTimeEntryPayload {
        start_time: FieldUpdate::Unset,
        end_time: FieldUpdate::SetValue(end),
        duration_seconds: FieldUpdate::Unset,
        is_pomodoro_session: FieldUpdate::Unset,
    };
    let q = s.update_time_entry(ALICE, e.id, &p, 77).unwrap();
    assert_eq!(q.duration_seconds, Some(2700));
    assert_eq!(q.end_time, Some(end));
    assert_eq!(q.updated_at, 77);

    // An explicit value in the same payload is kept as supplied.
    let p = UpdateTimeEntryPayload {
        start_time: FieldUpdate::Unset,
        end_time: FieldUpdate::SetValue(end),
        duration_seconds: FieldUpdate::SetValue(10),
        is_pomodoro_session: FieldUpdate::Unset,
    };
    let q = s.update_time_entry(ALICE, e.id, &p, 78).unwrap();
    assert_eq!(q.duration_seconds, Some(10));
}

#[test]
fn update_rejects_null_start_time() {
    let mut s = Store::new();
    let tid = task_for(&mut s, ALICE, "Strict");
    let e = s
        .create_time_entry(
            NewTimeEntry {
                user_id: ALICE,
                task_id: tid,
                start_time: 100,
                end_time: None,
                duration_seconds: None,
                is_pomodoro_session: None,
            },
            0,
        )
        .unwrap();
    let p = UpdateTimeEntryPayload {
        start_time: FieldUpdate::SetNull,
        end_time: FieldUpdate::Unset,
        duration_seconds: FieldUpdate::Unset,
        is_pomodoro_session: FieldUpdate::Unset,
    };
    assert!(matches!(s.update_time_entry(ALICE, e.id, &p, 1), Err(ServiceError::BadRequest(_))));
    // The row is untouched.
    assert_eq!(s.get_time_entry(ALICE, e.id).unwrap().updated_at, 0);
}

#[test]
fn list_time_entries_orders_recent_first_and_filters() {
    let mut s = Store::new();
    let t1 = task_for(&mut s, ALICE, "One");
    let t2 = task_for(&mut s, ALICE, "Two");
    let mk = |task_id: u128, start: i64| NewTimeEntry {
        user_id: ALICE,
        task_id,
        start_time: start,
        end_time: None,
        duration_seconds: None,
        is_pomodoro_session: None,
    };
    s.create_time_entry(mk(t1, 100), 0).unwrap();
    s.create_time_entry(mk(t2, 300), 0).unwrap();
    s.create_time_entry(mk(t1, 200), 0).unwrap();

    let all = s.list_time_entries(
        ALICE,
        &ListTimeEntriesQuery { task_id: None, date_from: None, date_to: None },
    );
    let starts: Vec<i64> = all.iter().map(|e| e.start_time).collect();
    assert_eq!(starts, vec![300, 200, 100]);

    let only_t1 = s.list_time_entries(
        ALICE,
        &ListTimeEntriesQuery { task_id: Some(t1), date_from: None, date_to: None },
    );
    assert_eq!(only_t1.len(), 2);

    let windowed = s.list_time_entries(
        ALICE,
        &ListTimeEntriesQuery { task_id: None, date_from: Some(150), date_to: Some(250) },
    );
    assert_eq!(windowed.len(), 1);
    assert_eq!(windowed[0].start_time, 200);

    assert_eq!(
        s.list_time_entries(
            BOB,
            &ListTimeEntriesQuery { task_id: None, date_from: None, date_to: None },
        )
        .len(),
        0
    );
}

#[test]
fn delete_time_entry_is_scoped_and_stable() {
    let mut s = Store::new();
    let tid = task_for(&mut s, ALICE, "Gone");
    let e = s
        .create_time_entry(
            NewTimeEntry {
                user_id: ALICE,
                task_id: tid,
                start_time: 5,
                end_time: None,
                duration_seconds: None,
                is_pomodoro_session: None,
            },
            0,
        )
        .unwrap();
    assert!(matches!(s.delete_time_entry(BOB, e.id), Err(ServiceError::NotFound(_))));
    assert!(s.delete_time_entry(ALICE, e.id).is_ok());
    assert!(matches!(s.delete_time_entry(ALICE, e.id), Err(ServiceError::NotFound(_))));
    assert!(matches!(s.delete_time_entry(ALICE, e.id), Err(ServiceError::NotFound(_))));
}

#[test]
fn add_label_checks_task_before_label() {
    let mut s = Store::new();
    // Label owned by Alice, task owned by Bob; Alice is the caller.
    let label = s
        .create_label(NewLabel { user_id: ALICE, name: "mine".to_string(), color: None }, 0)
        .unwrap();
    let task = task_for(&mut s, BOB, "Bob's task");
    match s.add_label_to_task(ALICE, task, label.id) {
        Err(ServiceError::NotFound(msg)) => {
            assert_eq!(msg, "Task not found or not owned by user");
        },
        other => panic!("expected the task check to fail first, got {:?}", other),
    }
}

#[test]
fn add_label_checks_label_ownership_second() {
    let mut s = Store::new();
    let theirs = s
        .create_label(NewLabel { user_id: BOB, name: "theirs".to_string(), color: None }, 0)
        .unwrap();
    let task = task_for(&mut s, ALICE, "Mine");
    match s.add_label_to_task(ALICE, task, theirs.id) {
        Err(ServiceError::NotFound(msg)) => {
            assert_eq!(msg, "Label not found or not owned by user");
        },
        other => panic!("expected the label check to fail, got {:?}", other),
    }
}

#[test]
fn duplicate_label_attachment_is_database_error() {
    let mut s = Store::new();
    let label = s
        .create_label(NewLabel { user_id: ALICE, name: "dup".to_string(), color: None }, 0)
        .unwrap();
    let task = task_for(&mut s, ALICE, "Tagged");
    assert!(s.add_label_to_task(ALICE, task, label.id).is_ok());
    assert!(matches!(
        s.add_label_to_task(ALICE, task, label.id),
        Err(ServiceError::DatabaseError(_))
    ));
}

#[test]
fn labels_hydrate_task_reads_and_detach_works() {
    let mut s = Store::new();
    let a = s
        .create_label(NewLabel { user_id: ALICE, name: "alpha".to_string(), color: None }, 0)
        .unwrap();
    let b = s
        .create_label(NewLabel { user_id: ALICE, name: "beta".to_string(), color: None }, 0)
        .unwrap();
    let task = task_for(&mut s, ALICE, "Tagged");
    s.add_label_to_task(ALICE, task, a.id).unwrap();
    s.add_label_to_task(ALICE, task, b.id).unwrap();

    let listed = s.list_labels_for_task(ALICE, task).unwrap();
    assert_eq!(listed.len(), 2);

    let got = s.get_task(ALICE, task).unwrap();
    let names: Vec<&str> = got.labels.iter().map(|l| l.name.as_str()).collect();
    assert_eq!(names, vec!["alpha", "beta"]);

    s.remove_label_from_task(ALICE, task, a.id).unwrap();
    let got = s.get_task(ALICE, task).unwrap();
    assert_eq!(got.labels.len(), 1);
    assert_eq!(got.labels[0].name, "beta");

    // Removing a label that is not attached reports the association missing.
    match s.remove_label_from_task(ALICE, task, a.id) {
        Err(ServiceError::NotFound(msg)) => {
            assert_eq!(msg, "Association between task and label not found");
        },
        other => panic!("expected NotFound, got {:?}", other),
    }
}

#[test]
fn label_listing_requires_task_ownership() {
    let mut s = Store::new();
    let task = task_for(&mut s, BOB, "Private");
    assert!(matches!(s.list_labels_for_task(ALICE, task), Err(ServiceError::NotFound(_))));
}

#[test]
fn null_duration_with_later_end_is_still_derived() {
    // An explicit null for the duration does not suppress the derivation:
    // only a supplied value does.
    let mut s = Store::new();
    let tid = task_for(&mut s, ALICE, "Quirk");
    let start = ts(2024, 1, 1, 8, 0, 0);
    let e = s
        .create_time_entry(
            NewTimeEntry {
                user_id: ALICE,
                task_id: tid,
                start_time: start,
                end_time: None,
                duration_seconds: Some(555),
                is_pomodoro_session: None,
            },
            0,
        )
        .unwrap();
    let end = ts(2024, 1, 1, 8, 10, 0);
    let p = UpdateTimeEntryPayload {
        start_time: FieldUpdate::Unset,
        end_time: FieldUpdate::SetValue(end),
        duration_seconds: FieldUpdate::SetNull,
        is_pomodoro_session: FieldUpdate::Unset,
    };
    let q = s.update_time_entry(ALICE, e.id, &p, 1).unwrap();
    assert_eq!(q.duration_seconds, Some(600));

    // With an end that is not later than the stored start, the null stands.
    let p = UpdateTimeEntryPayload {
        start_time: FieldUpdate::Unset,
        end_time: FieldUpdate::SetValue(start),
        duration_seconds: FieldUpdate::SetNull,
        is_pomodoro_session: FieldUpdate::Unset,
    };
    let q = s.update_time_entry(ALICE, e.id, &p, 2).unwrap();
    assert_eq!(q.duration_seconds, None);
}
