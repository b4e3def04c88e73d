use data_api::activity;
use data_api::error::RepoError;
use data_api::my_data;
use data_api::participation_record;
use data_api::query::{Filter, ListQuery};
use data_api::repository::{
    begin_create, begin_delete, begin_get_all, begin_get, begin_list, begin_update, find_value,
    step, Action, Outcome, Reply, Stage, StoreFailure, Turn,
};
use data_api::statement::{Assignment, Lookup, Statement};
use data_api::value::SqlValue;

fn text(s: &str) -> SqlValue {
    SqlValue::Text(s.to_string())
}

fn set(column: &'static str, value: SqlValue) -> Assignment {
    Assignment { column, value }
}

fn done(rows_affected: u64, last_insert_id: i64) -> Reply<u8> {
    Reply::Done { rows_affected, last_insert_id }
}

fn reread_activity(id: i64) -> Lookup {
    Lookup { sql: format!("{} WHERE id = ?", activity::SELECT_ACTIVITIES), key: SqlValue::Int(id) }
}

fn finished<R>(turn: Turn<R>) -> Result<Outcome<R>, RepoError> {
    assert!(matches!(turn.stage, Stage::Finished));
    match turn.action {
        Action::Finish(result) => result,
        _ => panic!("the operation has not ended"),
    }
}

#[test]
fn update_counts_then_writes_then_rereads() {
    let patch = vec![set("name", text("n"))];
    let turn: Turn<u8> = begin_update(&activity::descriptor(), SqlValue::Int(5), &patch, "T");
    match &turn.action {
        Action::FetchCount(count) => {
            assert_eq!(count.sql, "SELECT COUNT(*) FROM activityDB WHERE id = ?");
            assert_eq!(count.params, vec![SqlValue::Int(5)]);
        }
        _ => panic!("an update begins by counting"),
    }
    let turn = step(turn.stage, Reply::Count(1));
    match &turn.action {
        Action::Execute(write) => {
            assert_eq!(write.sql, "UPDATE activityDB SET name = ?, updatedAt = ? WHERE id = ?");
            assert_eq!(write.params, vec![text("n"), text("T"), SqlValue::Int(5)]);
        }
        _ => panic!("an accepted update writes"),
    }
    let turn = step(turn.stage, done(1, 0));
    match &turn.action {
        Action::FetchRow(lookup) => assert_eq!(*lookup, reread_activity(5)),
        _ => panic!("an update rereads"),
    }
    let turn = step(turn.stage, Reply::Row(Some(9)));
    assert!(matches!(finished(turn), Ok(Outcome::Updated(9))));
}

#[test]
fn update_that_affected_no_row_still_rereads() {
    let patch = vec![set("name", text("n"))];
    let turn: Turn<u8> = begin_update(&activity::descriptor(), SqlValue::Int(5), &patch, "T");
    let turn = step(turn.stage, Reply::Count(1));
    let turn = step(turn.stage, done(0, 0));
    assert!(matches!(turn.action, Action::FetchRow(_)));
    let turn = step(turn.stage, Reply::Row(None));
    assert_eq!(finished(turn).unwrap_err(), RepoError::StoreError);
}

#[test]
fn update_with_empty_patch_never_writes() {
    let replies: Vec<fn() -> Reply<u8>> = vec![
        || Reply::Count(1),
        || Reply::Count(3),
        || Reply::Count(0),
        || Reply::Count(-1),
        || Reply::Rows(vec![1]),
        || Reply::Row(Some(1)),
        || Reply::Row(None),
        || Reply::Done { rows_affected: 1, last_insert_id: 1 },
        || Reply::Failed(StoreFailure::Other),
        || Reply::Failed(StoreFailure::Duplicate),
        || Reply::Failed(StoreFailure::Unavailable),
    ];
    for reply in replies {
        let turn: Turn<u8> = begin_update(&activity::descriptor(), SqlValue::Int(5), &vec![], "T");
        assert!(matches!(turn.action, Action::FetchCount(_)));
        let turn = step(turn.stage, reply());
        assert!(matches!(turn.stage, Stage::Finished));
        assert!(matches!(turn.action, Action::Finish(Err(_))));
    }
    let turn: Turn<u8> = begin_update(&activity::descriptor(), SqlValue::Int(5), &vec![], "T");
    assert_eq!(
        finished(step(turn.stage, Reply::Count(1))).unwrap_err(),
        RepoError::ValidationError("沒有提供要更新的字段".to_string())
    );
    let turn: Turn<u8> = begin_update(&activity::descriptor(), SqlValue::Int(5), &vec![], "T");
    assert_eq!(
        finished(step(turn.stage, Reply::Count(0))).unwrap_err(),
        RepoError::NotFound("找不到 ID 為 5 的活動".to_string())
    );
}

#[test]
fn update_of_a_missing_row_is_not_found_whatever_the_patch() {
    let patch = vec![set("name", text("n"))];
    let turn: Turn<u8> = begin_update(&activity::descriptor(), SqlValue::Int(-2), &patch, "T");
    assert_eq!(
        finished(step(turn.stage, Reply::Count(0))).unwrap_err(),
        RepoError::NotFound("找不到 ID 為 -2 的活動".to_string())
    );
    let turn: Turn<u8> = begin_update(&my_data::descriptor(), text("abc"), &patch, "T");
    assert_eq!(
        finished(step(turn.stage, Reply::Count(0))).unwrap_err(),
        RepoError::NotFound("找不到 ID 為 abc 的記錄".to_string())
    );
}

#[test]
fn update_of_an_unknown_column_is_rejected_after_the_existence_check() {
    let patch = vec![set("secret", text("n"))];
    let turn: Turn<u8> = begin_update(&activity::descriptor(), SqlValue::Int(5), &patch, "T");
    assert!(matches!(turn.action, Action::FetchCount(_)));
    assert_eq!(
        finished(step(turn.stage, Reply::Count(1))).unwrap_err(),
        RepoError::ValidationError("不支援的欄位".to_string())
    );
}

#[test]
fn create_with_natural_key_checks_before_inserting() {
    let values = vec![set("activityId", text("A1")), set("name", text("n"))];
    let turn: Turn<u8> = begin_create(&activity::descriptor(), &values, "T", "");
    match &turn.action {
        Action::FetchCount(count) => {
            assert_eq!(count.sql, "SELECT COUNT(*) FROM activityDB WHERE activityId = ?");
            assert_eq!(count.params, vec![text("A1")]);
        }
        _ => panic!("a create with a natural key begins by counting"),
    }
    let turn = step(turn.stage, Reply::Count(0));
    match &turn.action {
        Action::Execute(insert) => {
            assert_eq!(
                insert.sql,
                "INSERT INTO activityDB (activityId, name, createdAt, updatedAt) VALUES (?, ?, ?, ?)"
            );
            assert_eq!(insert.params, vec![text("A1"), text("n"), text("T"), text("T")]);
        }
        _ => panic!("a create whose key is free inserts"),
    }
    let turn = step(turn.stage, done(1, 77));
    match &turn.action {
        Action::FetchRow(lookup) => assert_eq!(*lookup, reread_activity(77)),
        _ => panic!("a create rereads"),
    }
    let turn = step(turn.stage, Reply::Row(Some(4)));
    assert!(matches!(finished(turn), Ok(Outcome::Created(4))));
}

#[test]
fn create_with_taken_natural_key_is_a_conflict() {
    let values = vec![set("name", text("n")), set("activityId", text("A1"))];
    for n in [1, 2, i64::MAX] {
        let turn: Turn<u8> = begin_create(&activity::descriptor(), &values, "T", "");
        assert_eq!(
            finished(step(turn.stage, Reply::Count(n))).unwrap_err(),
            RepoError::Conflict("activityId 'A1' 已存在".to_string())
        );
    }
}

#[test]
fn create_without_the_natural_key_is_a_validation_error() {
    let values = vec![set("name", text("n"))];
    let turn: Turn<u8> = begin_create(&activity::descriptor(), &values, "T", "");
    assert_eq!(finished(turn).unwrap_err(), RepoError::ValidationError("缺少唯一鍵欄位".to_string()));
    let unknown = vec![set("activityId", text("A1")), set("nope", text("n"))];
    let turn: Turn<u8> = begin_create(&activity::descriptor(), &unknown, "T", "");
    assert_eq!(finished(turn).unwrap_err(), RepoError::ValidationError("不支援的欄位".to_string()));
}

#[test]
fn create_without_natural_key_inserts_at_once() {
    let values = vec![set("state", text("new"))];
    let turn: Turn<u8> = begin_create(&participation_record::descriptor(), &values, "T", "ignored");
    match &turn.action {
        Action::Execute(insert) => {
            assert_eq!(
                insert.sql,
                "INSERT INTO participationRecordDB (state, createdAt, updatedAt) VALUES (?, ?, ?)"
            );
            assert_eq!(insert.params, vec![text("new"), text("T"), text("T")]);
        }
        _ => panic!("a create without a natural key inserts at once"),
    }
    let turn = step(turn.stage, done(1, 12));
    match &turn.action {
        Action::FetchRow(lookup) => {
            assert_eq!(lookup.key, SqlValue::Int(12));
            assert!(lookup.sql.ends_with(" FROM participationRecordDB WHERE id = ?"));
        }
        _ => panic!("a create rereads"),
    }
}

#[test]
fn create_with_generated_identity_rereads_by_it() {
    let values = vec![set("state", text("new"))];
    let turn: Turn<u8> = begin_create(&my_data::descriptor(), &values, "T", "fresh-1");
    match &turn.action {
        Action::Execute(insert) => {
            assert_eq!(insert.sql, "INSERT INTO mydata (id, state, createdAt, updatedAt) VALUES (?, ?, ?, ?)");
            assert_eq!(insert.params, vec![text("fresh-1"), text("new"), text("T"), text("T")]);
        }
        _ => panic!("a create without a natural key inserts at once"),
    }
    let turn = step(turn.stage, done(1, 3));
    match &turn.action {
        Action::FetchRow(lookup) => {
            assert_eq!(lookup.key, text("fresh-1"));
            assert_eq!(lookup.sql, format!("{} WHERE id = ?", my_data::SELECT_MY_DATA));
        }
        _ => panic!("a create rereads"),
    }
}

#[test]
fn delete_reports_a_missing_row_when_none_was_affected() {
    let turn: Turn<u8> = begin_delete(&activity::descriptor(), SqlValue::Int(8));
    match &turn.action {
        Action::Execute(delete) => {
            assert_eq!(delete.sql, "DELETE FROM activityDB WHERE id = ?");
            assert_eq!(delete.params, vec![SqlValue::Int(8)]);
        }
        _ => panic!("a delete begins by deleting"),
    }
    assert_eq!(
        finished(step(turn.stage, done(0, 0))).unwrap_err(),
        RepoError::NotFound("找不到 ID 為 8 的活動".to_string())
    );
    let turn: Turn<u8> = begin_delete(&activity::descriptor(), SqlValue::Int(8));
    assert!(matches!(finished(step(turn.stage, done(1, 0))), Ok(Outcome::Deleted)));
    let turn: Turn<u8> = begin_delete(&activity::descriptor(), SqlValue::Int(8));
    assert!(matches!(finished(step(turn.stage, done(2, 0))), Ok(Outcome::Deleted)));
}

#[test]
fn lookup_finds_the_row_or_reports_it_missing() {
    let turn: Turn<u8> = begin_get(&activity::descriptor(), "activityId", text("A1"));
    match &turn.action {
        Action::FetchRow(lookup) => {
            assert_eq!(lookup.sql, format!("{} WHERE activityId = ?", activity::SELECT_ACTIVITIES));
            assert_eq!(lookup.key, text("A1"));
        }
        _ => panic!("a lookup begins by fetching"),
    }
    assert!(matches!(finished(step(turn.stage, Reply::Row(Some(1)))), Ok(Outcome::Item(1))));
    let turn: Turn<u8> = begin_get(&activity::descriptor(), "activityId", text("A1"));
    assert_eq!(
        finished(step(turn.stage, Reply::Row(None))).unwrap_err(),
        RepoError::NotFound("找不到 activityId 為 A1 的活動".to_string())
    );
}

#[test]
fn lookup_by_a_column_outside_the_allow_list_is_rejected() {
    let turn: Turn<u8> = begin_get(&activity::descriptor(), "name", text("x"));
    assert_eq!(finished(turn).unwrap_err(), RepoError::ValidationError("不支援的查詢欄位".to_string()));
    let turn: Turn<u8> = begin_get_all(&activity::descriptor(), "1=1 --", text("x"));
    assert_eq!(finished(turn).unwrap_err(), RepoError::ValidationError("不支援的查詢欄位".to_string()));
}

#[test]
fn column_lookup_returns_all_rows() {
    let turn: Turn<u8> = begin_get_all(&participation_record::descriptor(), "activityId", SqlValue::Int(3));
    match &turn.action {
        Action::FetchRows(fetch) => {
            assert!(fetch.sql.ends_with(" FROM participationRecordDB WHERE activityId = ?"));
            assert_eq!(fetch.params, vec![SqlValue::Int(3)]);
        }
        _ => panic!("a column lookup begins by fetching"),
    }
    match finished(step(turn.stage, Reply::Rows(vec![1, 2, 3]))) {
        Ok(Outcome::Items(rows)) => assert_eq!(rows, vec![1, 2, 3]),
        _ => panic!("a column lookup ends with its rows"),
    }
    let turn: Turn<u8> = begin_get_all(&participation_record::descriptor(), "activityId", SqlValue::Int(3));
    match finished(step(turn.stage, Reply::Rows(vec![]))) {
        Ok(Outcome::Items(rows)) => assert!(rows.is_empty()),
        _ => panic!("a column lookup that matches nothing ends with no rows"),
    }
}

#[test]
fn listing_fetches_the_page_then_the_count() {
    let query = ListQuery {
        filters: vec![Filter::Equals { column: "state", value: text("upcoming") }],
        sort: Some("-name".to_string()),
        limit: Some(2),
        offset: Some(4),
    };
    let turn: Turn<u8> = begin_list(&activity::descriptor(), &query);
    match &turn.action {
        Action::FetchRows(fetch) => {
            assert!(fetch.sql.ends_with(" WHERE 1=1 AND state = ? ORDER BY name DESC LIMIT ? OFFSET ?"));
            assert_eq!(fetch.params, vec![text("upcoming"), SqlValue::Int(2), SqlValue::Int(4)]);
        }
        _ => panic!("a listing begins by fetching"),
    }
    let turn = step(turn.stage, Reply::Rows(vec![5, 6]));
    match &turn.action {
        Action::FetchCount(count) => {
            assert_eq!(
                *count,
                Statement {
                    sql: "SELECT COUNT(*) FROM activityDB WHERE 1=1 AND state = ?".to_string(),
                    params: vec![text("upcoming")],
                }
            );
        }
        _ => panic!("a listing counts after its page"),
    }
    match finished(step(turn.stage, Reply::Count(150))) {
        Ok(Outcome::Page { rows, total, limit, offset }) => {
            assert_eq!(rows, vec![5, 6]);
            assert_eq!((total, limit, offset), (150, 2, 4));
        }
        _ => panic!("a listing ends with its page"),
    }
}

#[test]
fn a_failed_statement_ends_any_operation() {
    let turn: Turn<u8> = begin_delete(&activity::descriptor(), SqlValue::Int(8));
    assert_eq!(
        finished(step(turn.stage, Reply::Failed(StoreFailure::Other))).unwrap_err(),
        RepoError::StoreError
    );
    let turn: Turn<u8> = begin_get(&activity::descriptor(), "id", SqlValue::Int(8));
    assert_eq!(
        finished(step(turn.stage, Reply::Failed(StoreFailure::Unavailable))).unwrap_err(),
        RepoError::ServiceUnavailable
    );
    let turn: Turn<u8> = begin_list(&activity::descriptor(), &ListQuery { filters: vec![], sort: None, limit: None, offset: None });
    let turn = step(turn.stage, Reply::Rows(vec![]));
    assert_eq!(
        finished(step(turn.stage, Reply::Failed(StoreFailure::Other))).unwrap_err(),
        RepoError::StoreError
    );
}

#[test]
fn a_reply_that_answers_nothing_asked_ends_in_a_store_error() {
    let turn: Turn<u8> = begin_delete(&activity::descriptor(), SqlValue::Int(8));
    assert_eq!(finished(step(turn.stage, Reply::Count(1))).unwrap_err(), RepoError::StoreError);
    assert_eq!(finished(step(Stage::<u8>::Finished, Reply::Count(1))).unwrap_err(), RepoError::StoreError);
    assert_eq!(finished(step(Stage::<u8>::Many, Reply::Row(None))).unwrap_err(), RepoError::StoreError);
}

#[test]
fn find_value_takes_the_first_assignment_to_the_column() {
    let list = vec![set("a", SqlValue::Int(1)), set("b", SqlValue::Int(2)), set("a", SqlValue::Int(3))];
    assert_eq!(find_value(&list, "a"), Some(SqlValue::Int(1)));
    assert_eq!(find_value(&list, "b"), Some(SqlValue::Int(2)));
    assert_eq!(find_value(&list, "c"), None);
    assert_eq!(find_value(&vec![], "a"), None);
}

#[test]
fn an_insert_refused_as_duplicate_is_a_conflict_where_there_is_a_natural_key() {
    let values = vec![set("activityId", text("A1"))];
    let turn: Turn<u8> = begin_create(&activity::descriptor(), &values, "T", "");
    let turn = step(turn.stage, Reply::Count(0));
    assert!(matches!(turn.action, Action::Execute(_)));
    assert_eq!(
        finished(step(turn.stage, Reply::Failed(StoreFailure::Duplicate))).unwrap_err(),
        RepoError::Conflict("activityId 'A1' 已存在".to_string())
    );
    let turn: Turn<u8> = begin_create(&activity::descriptor(), &values, "T", "");
    let turn = step(turn.stage, Reply::Count(0));
    assert_eq!(
        finished(step(turn.stage, Reply::Failed(StoreFailure::Other))).unwrap_err(),
        RepoError::StoreError
    );
}

#[test]
fn a_duplicate_elsewhere_is_a_store_error() {
    let values = vec![set("state", text("new"))];
    let turn: Turn<u8> = begin_create(&my_data::descriptor(), &values, "T", "k");
    assert_eq!(
        finished(step(turn.stage, Reply::Failed(StoreFailure::Duplicate))).unwrap_err(),
        RepoError::StoreError
    );
    let patch = vec![set("name", text("n"))];
    let turn: Turn<u8> = begin_update(&activity::descriptor(), SqlValue::Int(5), &patch, "T");
    let turn = step(turn.stage, Reply::Count(1));
    assert_eq!(
        finished(step(turn.stage, Reply::Failed(StoreFailure::Duplicate))).unwrap_err(),
        RepoError::StoreError
    );
    let turn: Turn<u8> = begin_create(&activity::descriptor(), &vec![set("activityId", text("A1"))], "T", "");
    assert_eq!(
        finished(step(turn.stage, Reply::Failed(StoreFailure::Duplicate))).unwrap_err(),
        RepoError::StoreError
    );
}

#[test]
fn every_operation_ends_within_four_replies() {
    let replies: Vec<fn() -> Reply<u8>> = vec![
        || Reply::Count(0),
        || Reply::Count(1),
        || Reply::Rows(vec![1, 2]),
        || Reply::Row(Some(1)),
        || Reply::Row(None),
        || Reply::Done { rows_affected: 0, last_insert_id: 0 },
        || Reply::Done { rows_affected: 1, last_insert_id: 9 },
        || Reply::Failed(StoreFailure::Other),
    ];
    let starts: Vec<fn() -> Turn<u8>> = vec![
        || begin_list(&activity::descriptor(), &ListQuery { filters: vec![], sort: None, limit: None, offset: None }),
        || begin_get(&activity::descriptor(), "id", SqlValue::Int(1)),
        || begin_get_all(&my_data::descriptor(), "state", SqlValue::Text("s".to_string())),
        || begin_create(&activity::descriptor(), &vec![Assignment { column: "activityId", value: SqlValue::Int(1) }], "T", ""),
        || begin_update(&activity::descriptor(), SqlValue::Int(1), &vec![Assignment { column: "name", value: SqlValue::Null }], "T"),
        || begin_delete(&activity::descriptor(), SqlValue::Int(1)),
    ];
    for start in &starts {
        for a in 0..replies.len() {
            for b in 0..replies.len() {
                for c in 0..replies.len() {
                    let mut turn = start();
                    let mut writes = 0;
                    for reply in [replies[a], replies[b], replies[c], replies[0]] {
                        if matches!(turn.action, Action::Execute(_)) {
                            writes += 1;
                        }
                        turn = step(turn.stage, reply());
                    }
                    assert!(matches!(turn.stage, Stage::Finished));
                    assert!(matches!(turn.action, Action::Finish(_)));
                    assert!(writes <= 1);
                }
            }
        }
    }
}
