use data_api::api_response::{ApiResponse, Meta};

#[test]
fn success_carries_data_only() {
    let r = ApiResponse::success(7);
    assert!(r.success);
    assert_eq!(r.data, Some(7));
    assert!(r.message.is_none());
    assert!(r.meta.is_none());
    assert!(r.errors.is_none());
}

#[test]
fn success_with_meta_carries_count_and_bounds() {
    let r = ApiResponse::success_with_meta(vec![1, 2], Meta { total: 150, limit: Some(100), offset: Some(0) });
    assert!(r.success);
    assert_eq!(r.data, Some(vec![1, 2]));
    let meta = r.meta.unwrap();
    assert_eq!(meta.total, 150);
    assert_eq!(meta.limit, Some(100));
    assert_eq!(meta.offset, Some(0));
    assert!(r.message.is_none());
}

#[test]
fn success_with_message_carries_message() {
    let r = ApiResponse::success_with_message("x", "done".to_string());
    assert!(r.success);
    assert_eq!(r.data, Some("x"));
    assert_eq!(r.message.as_deref(), Some("done"));
    assert!(r.meta.is_none());
}

#[test]
fn error_carries_message_and_no_data() {
    let r: ApiResponse<i32> = ApiResponse::error("bad".to_string());
    assert!(!r.success);
    assert!(r.data.is_none());
    assert_eq!(r.message.as_deref(), Some("bad"));
    assert!(r.meta.is_none());
    assert!(r.errors.is_none());
}

#[test]
fn error_with_details_carries_details() {
    let r: ApiResponse<i32> = ApiResponse::error_with_details("bad".to_string(), vec!["a".to_string(), "b".to_string()]);
    assert!(!r.success);
    assert!(r.data.is_none());
    assert_eq!(r.message.as_deref(), Some("bad"));
    assert_eq!(r.errors, Some(vec!["a".to_string(), "b".to_string()]));
}
