use optitask::error::ServiceError;
use optitask::models::CreateProjectPayload;
use optitask::models::FieldUpdate;
use optitask::models::NewLabel;
use optitask::models::NewProject;
use optitask::models::NewTask;
use optitask::models::UpdateProjectPayload;
use optitask::models::UpdateTaskChangeset;
use optitask::models::build_project_changeset;
use optitask::models::build_task_changeset;
use optitask::store::Store;

const ALICE: u128 = 11;
const BOB: u128 = 22;

fn new_project(user_id: u128, name: &str, color: Option<&str>) -> NewProject {
    NewProject { user_id, name: name.to_string(), color: color.map(|c| c.to_string()) }
}

#[test]
fn create_then_get_returns_created_project() {
    let mut s = Store::new();
    let created = s.create_project(new_project(ALICE, "Research", Some("blue")), 1000).unwrap();
    let fetched = s.get_project(ALICE, created.id).unwrap();
    assert_eq!(fetched.id, created.id);
    assert_eq!(fetched.user_id, ALICE);
    assert_eq!(fetched.name, "Research");
    assert_eq!(fetched.color.as_deref(), Some("blue"));
    assert_eq!(fetched.created_at, 1000);
    assert_eq!(fetched.updated_at, 1000);
}

#[test]
fn foreign_owner_get_update_delete_is_not_found() {
    let mut s = Store::new();
    let p = s.create_project(new_project(ALICE, "Secret", None), 1).unwrap();

    assert!(matches!(s.get_project(BOB, p.id), Err(ServiceError::NotFound(_))));

    let payload = UpdateProjectPayload {
        name: FieldUpdate::SetValue("Taken".to_string()),
        color: FieldUpdate::Unset,
    };
    let cs = build_project_changeset(&payload, 5).unwrap();
    assert!(matches!(s.update_project(BOB, p.id, cs), Err(ServiceError::NotFound(_))));

    assert!(matches!(s.delete_project(BOB, p.id), Err(ServiceError::NotFound(_))));

    // The row is untouched for its owner.
    let still = s.get_project(ALICE, p.id).unwrap();
    assert_eq!(still.name, "Secret");
    assert_eq!(still.updated_at, 1);
}

#[test]
fn empty_update_refreshes_only_updated_at() {
    let mut s = Store::new();
    let p = s.create_project(new_project(ALICE, "Stable", Some("red")), 10).unwrap();
    let payload = UpdateProjectPayload { name: FieldUpdate::Unset, color: FieldUpdate::Unset };
    let cs = build_project_changeset(&payload, 99).unwrap();
    let q = s.update_project(ALICE, p.id, cs).unwrap();
    assert_eq!(q.name, "Stable");
    assert_eq!(q.color.as_deref(), Some("red"));
    assert_eq!(q.created_at, 10);
    assert_eq!(q.updated_at, 99);
}

#[test]
fn explicit_null_clears_color_while_absence_keeps_it() {
    let mut s = Store::new();
    let p = s.create_project(new_project(ALICE, "Palette", Some("blue")), 10).unwrap();

    // Omitting the field keeps the prior value.
    let keep = UpdateProjectPayload { name: FieldUpdate::Unset, color: FieldUpdate::Unset };
    let cs = build_project_changeset(&keep, 11).unwrap();
    let q = s.update_project(ALICE, p.id, cs).unwrap();
    assert_eq!(q.color.as_deref(), Some("blue"));

    // An explicit null clears it.
    let clear = UpdateProjectPayload { name: FieldUpdate::Unset, color: FieldUpdate::SetNull };
    let cs = build_project_changeset(&clear, 12).unwrap();
    let q = s.update_project(ALICE, p.id, cs).unwrap();
    assert_eq!(q.color, None);
    let fetched = s.get_project(ALICE, p.id).unwrap();
    assert_eq!(fetched.color, None);
}

#[test]
fn null_for_non_nullable_name_is_bad_request() {
    let payload = UpdateProjectPayload { name: FieldUpdate::SetNull, color: FieldUpdate::Unset };
    match build_project_changeset(&payload, 1) {
        Err(ServiceError::BadRequest(_)) => {},
        other => panic!("expected BadRequest, got {:?}", other),
    }
}

#[test]
fn delete_missing_project_is_not_found_on_every_call() {
    let mut s = Store::new();
    assert!(matches!(s.delete_project(ALICE, 424242), Err(ServiceError::NotFound(_))));
    assert!(matches!(s.delete_project(ALICE, 424242), Err(ServiceError::NotFound(_))));
    let p = s.create_project(new_project(ALICE, "Once", None), 1).unwrap();
    assert!(s.delete_project(ALICE, p.id).is_ok());
    assert!(matches!(s.delete_project(ALICE, p.id), Err(ServiceError::NotFound(_))));
    assert!(matches!(s.delete_project(ALICE, p.id), Err(ServiceError::NotFound(_))));
}

#[test]
fn list_projects_is_scoped_to_the_caller() {
    let mut s = Store::new();
    s.create_project(new_project(ALICE, "A1", None), 1).unwrap();
    s.create_project(new_project(BOB, "B1", None), 2).unwrap();
    s.create_project(new_project(ALICE, "A2", None), 3).unwrap();
    let mine = s.list_projects(ALICE);
    assert_eq!(mine.len(), 2);
    assert_eq!(mine[0].name, "A1");
    assert_eq!(mine[1].name, "A2");
    assert_eq!(s.list_projects(77).len(), 0);
}

#[test]
fn task_create_defaults_status_to_todo() {
    let mut s = Store::new();
    let t = s
        .create_task(
            NewTask {
                user_id: ALICE,
                project_id: None,
                title: "Write".to_string(),
                description: None,
                status: None,
                due_date: None,
                order: None,
            },
            5,
        )
        .unwrap();
    assert_eq!(t.status, "todo");
    let explicit = s
        .create_task(
            NewTask {
                user_id: ALICE,
                project_id: None,
                title: "Ship".to_string(),
                description: None,
                status: Some("done".to_string()),
                due_date: None,
                order: None,
            },
            6,
        )
        .unwrap();
    assert_eq!(explicit.status, "done");
}

#[test]
fn task_create_with_foreign_project_is_database_error() {
    let mut s = Store::new();
    let theirs = s.create_project(new_project(BOB, "Theirs", None), 1).unwrap();
    let r = s.create_task(
        NewTask {
            user_id: ALICE,
            project_id: Some(theirs.id),
            title: "Sneak".to_string(),
            description: None,
            status: None,
            due_date: None,
            order: None,
        },
        2,
    );
    assert!(matches!(r, Err(ServiceError::DatabaseError(_))));

    let mine = s.create_project(new_project(ALICE, "Mine", None), 3).unwrap();
    let ok = s.create_task(
        NewTask {
            user_id: ALICE,
            project_id: Some(mine.id),
            title: "Fine".to_string(),
            description: None,
            status: None,
            due_date: None,
            order: None,
        },
        4,
    );
    assert!(ok.is_ok());
}

#[test]
fn list_tasks_orders_by_order_asc_nulls_last_then_created_desc() {
    let mut s = Store::new();
    let mk = |title: &str, order: Option<i32>| NewTask {
        user_id: ALICE,
        project_id: None,
        title: title.to_string(),
        description: None,
        status: None,
        due_date: None,
        order,
    };
    s.create_task(mk("late-null", None), 100).unwrap();
    s.create_task(mk("two", Some(2)), 10).unwrap();
    s.create_task(mk("one", Some(1)), 20).unwrap();
    s.create_task(mk("early-null", None), 50).unwrap();
    s.create_task(mk("also-two-newer", Some(2)), 30).unwrap();

    let q = optitask::models::ListTasksQuery { project_id: None, status: None };
    let listed = s.list_tasks(ALICE, &q);
    let titles: Vec<&str> = listed.iter().map(|r| r.task.title.as_str()).collect();
    assert_eq!(titles, vec!["one", "also-two-newer", "two", "late-null", "early-null"]);
}

#[test]
fn list_tasks_filters_by_project_and_status() {
    let mut s = Store::new();
    let p = s.create_project(new_project(ALICE, "P", None), 1).unwrap();
    let mk = |title: &str, project_id: Option<u128>, status: Option<&str>| NewTask {
        user_id: ALICE,
        project_id,
        title: title.to_string(),
        description: None,
        status: status.map(|x| x.to_string()),
        due_date: None,
        order: None,
    };
    s.create_task(mk("a", Some(p.id), Some("done")), 1).unwrap();
    s.create_task(mk("b", Some(p.id), None), 2).unwrap();
    s.create_task(mk("c", None, Some("done")), 3).unwrap();

    let q = optitask::models::ListTasksQuery { project_id: Some(p.id), status: None };
    assert_eq!(s.list_tasks(ALICE, &q).len(), 2);
    let q = optitask::models::ListTasksQuery {
        project_id: Some(p.id),
        status: Some("done".to_string()),
    };
    let both = s.list_tasks(ALICE, &q);
    assert_eq!(both.len(), 1);
    assert_eq!(both[0].task.title, "a");
    let q = optitask::models::ListTasksQuery { project_id: None, status: Some("done".to_string()) };
    assert_eq!(s.list_tasks(ALICE, &q).len(), 2);
}

#[test]
fn update_task_rejects_null_title_and_applies_partial_fields() {
    let mut s = Store::new();
    let t = s
        .create_task(
            NewTask {
                user_id: ALICE,
                project_id: None,
                title: "Draft".to_string(),
                description: Some("v1".to_string()),
                status: None,
                due_date: None,
                order: Some(5),
            },
            1,
        )
        .unwrap();

    let bad = optitask::models::UpdateTaskPayload {
        project_id: FieldUpdate::Unset,
        title: FieldUpdate::SetNull,
        description: FieldUpdate::Unset,
        status: FieldUpdate::Unset,
        due_date: FieldUpdate::Unset,
        order: FieldUpdate::Unset,
    };
    assert!(matches!(build_task_changeset(&bad, 2), Err(ServiceError::BadRequest(_))));

    let cs = UpdateTaskChangeset {
        project_id: FieldUpdate::Unset,
        title: Some("Final".to_string()),
        description: FieldUpdate::SetNull,
        status: None,
        due_date: FieldUpdate::Unset,
        order: FieldUpdate::Unset,
        updated_at: 9,
    };
    let resp = s.update_task(ALICE, t.id, cs).unwrap();
    assert_eq!(resp.task.title, "Final");
    assert_eq!(resp.task.description, None);
    assert_eq!(resp.task.status, "todo");
    assert_eq!(resp.task.order, Some(5));
    assert_eq!(resp.task.created_at, 1);
    assert_eq!(resp.task.updated_at, 9);
}

#[test]
fn label_crud_mirrors_projects() {
    let mut s = Store::new();
    let l = s
        .create_label(NewLabel { user_id: ALICE, name: "urgent".to_string(), color: None }, 3)
        .unwrap();
    assert_eq!(s.get_label(ALICE, l.id).unwrap().name, "urgent");
    assert!(matches!(s.get_label(BOB, l.id), Err(ServiceError::NotFound(_))));
    assert!(s.delete_label(ALICE, l.id).is_ok());
    assert!(matches!(s.get_label(ALICE, l.id), Err(ServiceError::NotFound(_))));
}

#[test]
fn ids_are_never_reused_across_entities() {
    let mut s = Store::new();
    let p = s.create_project(new_project(ALICE, "P", None), 1).unwrap();
    let l = s
        .create_label(NewLabel { user_id: ALICE, name: "L".to_string(), color: None }, 1)
        .unwrap();
    let t = s
        .create_task(
            NewTask {
                user_id: ALICE,
                project_id: None,
                title: "T".to_string(),
                description: None,
                status: None,
                due_date: None,
                order: None,
            },
            1,
        )
        .unwrap();
    assert!(p.id != l.id && l.id != t.id && p.id != t.id);
}

#[test]
fn create_project_payload_shapes_new_project() {
    let payload = CreateProjectPayload { name: "From wire".to_string(), color: None };
    let np = NewProject { user_id: ALICE, name: payload.name.clone(), color: payload.color.clone() };
    let mut s = Store::new();
    let p = s.create_project(np, 7).unwrap();
    assert_eq!(p.name, "From wire");
    assert_eq!(p.color, None);
}

#[test]
fn pagination_defaults_to_first_page_of_ten() {
    let p = optitask::models::PaginationParams::default();
    assert_eq!(p.page, 1);
    assert_eq!(p.per_page, 10);
}

#[test]
fn create_then_get_returns_created_task() {
    let mut s = Store::new();
    let due = optitask::calendar::Date { year: 2024, month: 6, day: 1 };
    let t = s
        .create_task(
            NewTask {
                user_id: ALICE,
                project_id: None,
                title: "Round trip".to_string(),
                description: Some("details".to_string()),
                status: Some("inprogress".to_string()),
                due_date: Some(due),
                order: Some(3),
            },
            44,
        )
        .unwrap();
    let got = s.get_task(ALICE, t.id).unwrap();
    assert_eq!(got.task.title, "Round trip");
    assert_eq!(got.task.description.as_deref(), Some("details"));
    assert_eq!(got.task.status, "inprogress");
    assert_eq!(got.task.due_date, Some(due));
    assert_eq!(got.task.order, Some(3));
    assert_eq!(got.task.created_at, 44);
    assert_eq!(got.task.updated_at, 44);
    assert_eq!(got.labels.len(), 0);
}
