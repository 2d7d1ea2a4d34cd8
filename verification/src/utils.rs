use vstd::prelude::*;

verus! {

/// Milliseconds since the Unix epoch, read from the host clock.
///
/// Relies on chrono's `DateTime::timestamp_millis` applied to the current
/// local time. The value depends on the clock, so nothing is promised of it.
#[verifier::external_body]
pub fn get_local_timestamp() -> u64 {
    let now = std::time::SystemTime::now();
    let date: chrono::DateTime<chrono::offset::Local> = now.into();
    date.timestamp_millis() as u64
}

/// The uniform success/error payload shape attached to responses.
///
/// A rejection carries `status` mirroring the HTTP status code, a short
/// `message`, no `data`, and the moment the envelope was built.
#[derive(Debug)]
pub struct ApiResult<T> {
    pub status: i32,
    pub message: String,
    pub data: Option<T>,
    pub timestamp: Option<u64>,
}

impl<T: Clone> Clone for ApiResult<T> {
    fn clone(&self) -> (r: Self)
        ensures
            r.status == self.status,
            r.message == self.message,
            r.timestamp == self.timestamp,
            r.data is Some <==> self.data is Some,
    {
        ApiResult {
            status: self.status,
            message: self.message.clone(),
            data: self.data.clone(),
            timestamp: self.timestamp.clone(),
        }
    }
}

impl<T> ApiResult<T> {
    /// A success envelope: status 200, message "OK", carrying `dt`.
    pub fn ok(dt: T) -> (r: Self)
        ensures
            r.status == 200,
            r.message@ == "OK"@,
            r.data == Option::Some(dt),
            r.timestamp is Some,
    {
        ApiResult {
            status: 200,
            message: "OK".to_owned(),
            data: Option::Some(dt),
            timestamp: Option::Some(get_local_timestamp()),
        }
    }

    /// An error envelope: the given status and message, with no data.
    pub fn error(code: i32, msg: &String) -> (r: Self)
        ensures
            r.status == code,
            r.message == *msg,
            r.data is None,
            r.timestamp is Some,
    {
        ApiResult {
            status: code,
            message: msg.clone(),
            data: Option::None,
            timestamp: Option::Some(get_local_timestamp()),
        }
    }

    /// An envelope with every field chosen by the caller.
    pub fn new(code: i32, msg: &String, data: T, ts: u64) -> (r: Self)
        ensures
            r.status == code,
            r.message == *msg,
            r.data == Option::Some(data),
            r.timestamp == Option::Some(ts),
    {
        ApiResult {
            status: code,
            message: msg.clone(),
            data: Option::Some(data),
            timestamp: Option::Some(ts),
        }
    }
}

} // verus!
