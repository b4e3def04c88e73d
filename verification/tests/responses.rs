use data_api::activity::{self, Activity, ActivityResponse};
use data_api::api_response::Meta;
use data_api::error::RepoError;
use data_api::my_data::{self, MyData, MyDataResponse};
use data_api::repository::Outcome;
use data_api::respond::{respond, show_rows, Payload, Response};

fn row(id: i64, name: &str) -> Activity {
    Activity {
        id,
        user_created: None,
        date_created: None,
        user_updated: None,
        date_updated: None,
        activity_id: Some(format!("A{}", id)),
        name: Some(name.to_string()),
        item_type: None,
        participants: Some(2),
        date: None,
        state: None,
        icon: None,
        description: None,
        location: None,
        created_at: Some("T".to_string()),
        updated_at: Some("T".to_string()),
    }
}

fn reply(result: Result<Outcome<Activity>, RepoError>) -> Response<ActivityResponse> {
    respond(&activity::descriptor(), result)
}

fn names(payload: Option<Payload<ActivityResponse>>) -> Vec<String> {
    match payload {
        Some(Payload::Many(items)) => items.into_iter().map(|a| a.name.unwrap()).collect(),
        Some(Payload::One(item)) => vec![item.name.unwrap()],
        None => vec![],
    }
}

#[test]
fn page_carries_items_and_meta() {
    let response = reply(Ok(Outcome::Page { rows: vec![row(1, "a"), row(2, "b")], total: 150, limit: 100, offset: 0 }));
    assert_eq!(response.status, 200);
    assert!(response.body.success);
    assert_eq!(response.body.meta, Some(Meta { total: 150, limit: Some(100), offset: Some(0) }));
    assert_eq!(response.body.message, None);
    assert_eq!(response.body.errors, None);
    assert!(matches!(response.body.data, Some(Payload::Many(_))));
    assert_eq!(names(response.body.data), vec!["a", "b"]);
}

#[test]
fn items_carry_data_only() {
    let response = reply(Ok(Outcome::Items(vec![row(3, "c")])));
    assert_eq!(response.status, 200);
    assert!(response.body.success);
    assert_eq!(response.body.meta, None);
    assert_eq!(response.body.message, None);
    assert!(matches!(response.body.data, Some(Payload::Many(_))));
    assert_eq!(names(response.body.data), vec!["c"]);
}

#[test]
fn item_carries_data_only() {
    let response = reply(Ok(Outcome::Item(row(3, "c"))));
    assert_eq!(response.status, 200);
    assert!(response.body.success);
    assert_eq!(response.body.meta, None);
    assert_eq!(response.body.message, None);
    match response.body.data {
        Some(Payload::One(item)) => {
            assert_eq!(item.id, 3);
            assert_eq!(item.activity_id.as_deref(), Some("A3"));
            assert_eq!(item.participants, Some(2));
            assert_eq!(item.created_at.as_deref(), Some("T"));
        }
        _ => panic!("no item in the envelope"),
    }
}

#[test]
fn mutations_carry_a_message() {
    let created = reply(Ok(Outcome::Created(row(1, "a"))));
    assert_eq!(created.status, 200);
    assert_eq!(created.body.message.as_deref(), Some("成功創建活動"));
    assert!(matches!(created.body.data, Some(Payload::One(_))));
    assert_eq!(created.body.meta, None);
    let updated = reply(Ok(Outcome::Updated(row(1, "a"))));
    assert_eq!(updated.status, 200);
    assert_eq!(updated.body.message.as_deref(), Some("成功更新活動"));
    assert!(matches!(updated.body.data, Some(Payload::One(_))));
}

#[test]
fn delete_carries_a_message_and_no_data() {
    let response = reply(Ok(Outcome::Deleted));
    assert_eq!(response.status, 200);
    assert!(response.body.success);
    assert!(response.body.data.is_none());
    assert_eq!(response.body.message.as_deref(), Some("成功刪除活動"));
    assert_eq!(response.body.meta, None);
    assert_eq!(response.body.errors, None);
    let other: Response<MyDataResponse> = respond::<MyData, MyDataResponse>(&my_data::descriptor(), Ok(Outcome::Deleted));
    assert_eq!(other.body.message.as_deref(), Some("成功刪除記錄"));
}

#[test]
fn each_failure_has_its_status_and_message() {
    let cases = vec![
        (RepoError::NotFound("missing".to_string()), 404, "missing"),
        (RepoError::Conflict("taken".to_string()), 409, "taken"),
        (RepoError::ValidationError("invalid".to_string()), 400, "invalid"),
        (RepoError::StoreError, 500, "資料庫操作失敗"),
        (RepoError::ServiceUnavailable, 503, "服務暫時無法使用"),
    ];
    for (error, status, message) in cases {
        assert_eq!(error.status(), status);
        assert_eq!(error.message(), message);
        let response = reply(Err(error));
        assert_eq!(response.status, status);
        assert!(!response.body.success);
        assert!(response.body.data.is_none());
        assert_eq!(response.body.message.as_deref(), Some(message));
        assert_eq!(response.body.meta, None);
        assert_eq!(response.body.errors, None);
    }
}

#[test]
fn rows_are_shown_in_order() {
    let shown: Vec<ActivityResponse> = show_rows(vec![row(1, "a"), row(2, "b"), row(3, "c")]);
    assert_eq!(shown.iter().map(|a| a.id).collect::<Vec<_>>(), vec![1, 2, 3]);
    let none: Vec<ActivityResponse> = show_rows(Vec::<Activity>::new());
    assert!(none.is_empty());
}
