use chimes_auth::{ApiResult, get_local_timestamp};

#[test]
fn it_works() {
    let result = 2 + 2;
    assert_eq!(result, 4);
}

#[test]
fn ok_envelope_has_status_200() {
    let r = ApiResult::ok("payload".to_string());
    assert_eq!(r.status, 200);
    assert_eq!(r.message, "OK");
    assert_eq!(r.data, Some("payload".to_string()));
    assert!(r.timestamp.is_some());
}

#[test]
fn error_envelope_keeps_code_and_message() {
    let r: ApiResult<String> = ApiResult::error(401, &"Not-Authorized".to_string());
    assert_eq!(r.status, 401);
    assert_eq!(r.message, "Not-Authorized");
    assert!(r.data.is_none());
    assert!(r.timestamp.is_some());
}

#[test]
fn error_envelope_forbidden() {
    let r: ApiResult<String> = ApiResult::error(403, &"Forbidden".to_string());
    assert_eq!(r.status, 403);
    assert_eq!(r.message, "Forbidden");
    assert!(r.data.is_none());
}

#[test]
fn new_envelope_takes_every_field() {
    let r = ApiResult::new(200, &"OK".to_string(), 7u32, 12345u64);
    assert_eq!(r.status, 200);
    assert_eq!(r.message, "OK");
    assert_eq!(r.data, Some(7u32));
    assert_eq!(r.timestamp, Some(12345u64));
}

#[test]
fn timestamp_is_after_2020() {
    // 2020-01-01T00:00:00Z in milliseconds since the epoch.
    assert!(get_local_timestamp() > 1_577_836_800_000);
}
