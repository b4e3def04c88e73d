use data_api::activity;
use data_api::descriptor::find_name;
use data_api::error::RepoError;
use data_api::monthly_donate;
use data_api::participation_record;
use data_api::query::{plan_list, resolve_sort, Direction, Filter, ListQuery};
use data_api::value::SqlValue;

fn text(s: &str) -> SqlValue {
    SqlValue::Text(s.to_string())
}

fn bare() -> ListQuery {
    ListQuery { filters: vec![], sort: None, limit: None, offset: None }
}

fn invalid(message: &str) -> RepoError {
    RepoError::ValidationError(message.to_string())
}

#[test]
fn bare_listing_uses_default_order_and_page() {
    let plan = plan_list(&activity::descriptor(), &bare()).unwrap();
    assert_eq!(
        plan.fetch.sql,
        format!("{} WHERE 1=1 ORDER BY date DESC LIMIT ? OFFSET ?", activity::SELECT_ACTIVITIES)
    );
    assert_eq!(plan.fetch.params, vec![SqlValue::Int(100), SqlValue::Int(0)]);
    assert_eq!(plan.count.sql, "SELECT COUNT(*) FROM activityDB WHERE 1=1");
    assert_eq!(plan.count.params, vec![]);
    assert_eq!(plan.limit, 100);
    assert_eq!(plan.offset, 0);
}

#[test]
fn select_head_reads_every_column_of_the_table() {
    assert_eq!(
        activity::SELECT_ACTIVITIES,
        "SELECT id, user_created, CASE WHEN date_created IS NOT NULL THEN datetime(date_created / 1000, 'unixepoch') ELSE NULL END as date_created, user_updated, CASE WHEN date_updated IS NOT NULL THEN datetime(date_updated / 1000, 'unixepoch') ELSE NULL END as date_updated, activityId, name, item_type, participants, date, state, icon, description, location, createdAt, updatedAt FROM activityDB"
    );
}

#[test]
fn each_present_filter_adds_one_clause_and_one_parameter() {
    let query = activity::ActivityQuery {
        state: Some("upcoming".to_string()),
        item_type: Some("ceremony".to_string()),
        limit: Some(20),
        offset: Some(40),
        sort: None,
    };
    let plan = plan_list(&activity::descriptor(), &query.list_query()).unwrap();
    assert_eq!(
        plan.fetch.sql,
        format!(
            "{} WHERE 1=1 AND state = ? AND item_type = ? ORDER BY date DESC LIMIT ? OFFSET ?",
            activity::SELECT_ACTIVITIES
        )
    );
    assert_eq!(
        plan.fetch.params,
        vec![text("upcoming"), text("ceremony"), SqlValue::Int(20), SqlValue::Int(40)]
    );
    assert_eq!(plan.count.sql, "SELECT COUNT(*) FROM activityDB WHERE 1=1 AND state = ? AND item_type = ?");
    assert_eq!(plan.count.params, vec![text("upcoming"), text("ceremony")]);
    assert_eq!((plan.limit, plan.offset), (20, 40));
}

#[test]
fn absent_filters_add_nothing() {
    let query = activity::ActivityQuery {
        state: None,
        item_type: Some("lecture".to_string()),
        limit: None,
        offset: None,
        sort: None,
    };
    let list = query.list_query();
    assert_eq!(list.filters, vec![Filter::Equals { column: "item_type", value: text("lecture") }]);
    let plan = plan_list(&activity::descriptor(), &list).unwrap();
    assert_eq!(plan.count.sql, "SELECT COUNT(*) FROM activityDB WHERE 1=1 AND item_type = ?");
    assert_eq!(plan.count.params, vec![text("lecture")]);
}

#[test]
fn substring_filter_binds_the_needle_between_wildcards() {
    let query = monthly_donate::MonthlyDonateQuery {
        name: Some("Lin".to_string()),
        registration_id: Some(12),
        donate_id: Some("D-7".to_string()),
        donate_type: Some("monthly".to_string()),
        limit: None,
        offset: None,
        sort: Some("name".to_string()),
    };
    let plan = plan_list(&monthly_donate::descriptor(), &query.list_query()).unwrap();
    assert_eq!(
        plan.count.sql,
        "SELECT COUNT(*) FROM monthlyDonateDB WHERE 1=1 AND name LIKE ? AND registrationId = ? AND donateId = ? AND donateType = ?"
    );
    assert_eq!(plan.count.params, vec![text("%Lin%"), SqlValue::Int(12), text("D-7"), text("monthly")]);
    assert_eq!(
        plan.fetch.sql,
        format!(
            "{} WHERE 1=1 AND name LIKE ? AND registrationId = ? AND donateId = ? AND donateType = ? ORDER BY name ASC LIMIT ? OFFSET ?",
            monthly_donate::SELECT_MONTHLY_DONATES
        )
    );
}

#[test]
fn participation_listing_knows_its_five_filters() {
    let query = participation_record::ParticipationRecordQuery {
        registration_id: Some(1),
        activity_id: Some(2),
        state: Some("s".to_string()),
        payment_state: Some("p".to_string()),
        accounting_state: Some("a".to_string()),
        limit: None,
        offset: None,
        sort: None,
    };
    let plan = plan_list(&participation_record::descriptor(), &query.list_query()).unwrap();
    assert_eq!(
        plan.count.sql,
        "SELECT COUNT(*) FROM participationRecordDB WHERE 1=1 AND registrationId = ? AND activityId = ? AND state = ? AND paymentState = ? AND accountingState = ?"
    );
    assert_eq!(
        plan.count.params,
        vec![SqlValue::Int(1), SqlValue::Int(2), text("s"), text("p"), text("a")]
    );
    assert!(plan.fetch.sql.ends_with(" ORDER BY createdAt DESC LIMIT ? OFFSET ?"));
}

#[test]
fn sigil_sorts_descending_and_bare_name_ascending() {
    let desc = activity::descriptor();
    let mut query = bare();
    query.sort = Some("-date".to_string());
    let plan = plan_list(&desc, &query).unwrap();
    assert!(plan.fetch.sql.ends_with(" WHERE 1=1 ORDER BY date DESC LIMIT ? OFFSET ?"));
    query.sort = Some("date".to_string());
    let plan = plan_list(&desc, &query).unwrap();
    assert!(plan.fetch.sql.ends_with(" WHERE 1=1 ORDER BY date ASC LIMIT ? OFFSET ?"));
    query.sort = Some("-createdAt".to_string());
    let plan = plan_list(&desc, &query).unwrap();
    assert!(plan.fetch.sql.ends_with(" WHERE 1=1 ORDER BY createdAt DESC LIMIT ? OFFSET ?"));
    assert_eq!(plan.count.sql, "SELECT COUNT(*) FROM activityDB WHERE 1=1");
}

#[test]
fn resolve_sort_reads_the_sigil() {
    let desc = activity::descriptor();
    assert_eq!(resolve_sort(&desc, &None), Some(("date", Direction::Descending)));
    assert_eq!(resolve_sort(&desc, &Some("name".to_string())), Some(("name", Direction::Ascending)));
    assert_eq!(resolve_sort(&desc, &Some("-name".to_string())), Some(("name", Direction::Descending)));
    assert_eq!(resolve_sort(&desc, &Some("--name".to_string())), None);
    assert_eq!(resolve_sort(&desc, &Some("-".to_string())), None);
    assert_eq!(resolve_sort(&desc, &Some("".to_string())), None);
    assert_eq!(resolve_sort(&desc, &Some("Name".to_string())), None);
    assert_eq!(resolve_sort(&desc, &Some("name desc".to_string())), None);
}

#[test]
fn sort_outside_the_allow_list_is_a_validation_error() {
    let mut query = bare();
    query.sort = Some("password".to_string());
    assert_eq!(plan_list(&activity::descriptor(), &query).unwrap_err(), invalid("不支援的排序欄位"));
    query.sort = Some("-date; DROP TABLE activityDB".to_string());
    assert_eq!(plan_list(&activity::descriptor(), &query).unwrap_err(), invalid("不支援的排序欄位"));
}

#[test]
fn filter_outside_the_allow_list_is_a_validation_error() {
    let mut query = bare();
    query.filters.push(Filter::Equals { column: "name", value: text("x") });
    assert_eq!(plan_list(&activity::descriptor(), &query).unwrap_err(), invalid("不支援的篩選欄位"));
    let mut query = bare();
    query.filters.push(Filter::Contains { column: "1=1 OR name", needle: "x".to_string() });
    query.sort = Some("nothing".to_string());
    assert_eq!(plan_list(&activity::descriptor(), &query).unwrap_err(), invalid("不支援的篩選欄位"));
}

#[test]
fn negative_page_bounds_are_validation_errors() {
    let mut query = bare();
    query.limit = Some(-1);
    assert_eq!(plan_list(&activity::descriptor(), &query).unwrap_err(), invalid("limit 不可為負數"));
    let mut query = bare();
    query.offset = Some(-5);
    assert_eq!(plan_list(&activity::descriptor(), &query).unwrap_err(), invalid("offset 不可為負數"));
    let mut query = bare();
    query.limit = Some(-1);
    query.offset = Some(-1);
    assert_eq!(plan_list(&activity::descriptor(), &query).unwrap_err(), invalid("limit 不可為負數"));
}

#[test]
fn limit_is_cut_down_to_the_largest_served() {
    let mut query = bare();
    query.limit = Some(1000);
    assert_eq!(plan_list(&activity::descriptor(), &query).unwrap().limit, 1000);
    query.limit = Some(1001);
    let plan = plan_list(&activity::descriptor(), &query).unwrap();
    assert_eq!(plan.limit, 1000);
    assert_eq!(plan.fetch.params, vec![SqlValue::Int(1000), SqlValue::Int(0)]);
    query.limit = Some(i64::MAX);
    query.offset = Some(i64::MAX);
    let plan = plan_list(&activity::descriptor(), &query).unwrap();
    assert_eq!(plan.fetch.params, vec![SqlValue::Int(1000), SqlValue::Int(i64::MAX)]);
    query.limit = Some(0);
    query.offset = Some(0);
    let plan = plan_list(&activity::descriptor(), &query).unwrap();
    assert_eq!((plan.limit, plan.offset), (0, 0));
}

#[test]
fn find_name_returns_the_listed_entry() {
    let list = vec!["state", "item_type"];
    assert_eq!(find_name(&list, "item_type"), Some("item_type"));
    assert_eq!(find_name(&list, "state"), Some("state"));
    assert_eq!(find_name(&list, "item"), None);
    assert_eq!(find_name(&vec![], "state"), None);
}
