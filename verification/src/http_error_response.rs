//! The uniform body of an HTTP error response: a server-assigned
//! timestamp and a message.

use vstd::prelude::*;

verus! {

/// Relies on chrono's `Utc::now` and `timestamp_millis`: the current
/// instant as milliseconds since the Unix epoch. The value depends on
/// the clock, so nothing is assumed of it.
#[verifier::external_body]
fn utc_now_millis() -> i64 {
    chrono::Utc::now().timestamp_millis()
}

/// The uniform error envelope rendered by every failing endpoint.
pub struct HttpErrorResponse {
    timestamp: u128,
    message: String,
}

impl View for HttpErrorResponse {
    type V = (u128, Seq<char>);

    closed spec fn view(&self) -> (u128, Seq<char>) {
        (self.timestamp, self.message@)
    }
}

impl HttpErrorResponse {
    /// An envelope carrying the given message, stamped with the current
    /// time in epoch milliseconds.
    pub fn new(message: String) -> (r: HttpErrorResponse)
        ensures
            r@.1 == message@,
    {
        let now = utc_now_millis();
        let timestamp: u128 = if now >= 0 {
            now as u128
        } else {
            0
        };
        HttpErrorResponse { timestamp, message }
    }

    /// The epoch-millisecond timestamp the envelope was stamped with.
    pub fn timestamp(&self) -> (r: u128)
        ensures
            r == self@.0,
    {
        self.timestamp
    }

    /// The message the envelope carries.
    pub fn message<'a>(&'a self) -> (r: &'a String)
        ensures
            r@ == self@.1,
    {
        &self.message
    }
}

} // verus!
