//! Wall-clock time, in milliseconds since the Unix epoch.
use vstd::prelude::*;

verus! {

/// Calls `chrono::Utc::now` and reads its `timestamp_millis`: the current
/// time, which nothing here can predict, so nothing is promised of it.
#[verifier::external_body]
pub(crate) fn now_ms() -> (t: i64) {
    chrono::Utc::now().timestamp_millis()
}


/// Calls `dirs::home_dir`, which reads the environment: the user's home
/// directory, converted lossily to text, if there is one. Nothing is
/// promised of it.
#[verifier::external_body]
pub(crate) fn home_dir() -> (h: Option<String>) {
    dirs::home_dir().map(|p| p.to_string_lossy().to_string())
}


/// Calls `chrono::Local::now` and formats it with `to_rfc3339`: the local
/// time as text, which depends on the clock and the time zone, so nothing
/// is promised of it.
#[verifier::external_body]
pub(crate) fn now_rfc3339() -> (t: String) {
    chrono::Local::now().to_rfc3339()
}

/// Calls `chrono::Local::now` and formats it as hours and minutes
/// (`%H:%M`): the local time of day, which nothing here can predict, so
/// nothing is promised of it.
#[verifier::external_body]
pub(crate) fn now_hm() -> (t: String) {
    chrono::Local::now().format("%H:%M").to_string()
}

/// Calls `dirs::data_dir`, which reads the environment: the user's data
/// directory, converted lossily to text, if there is one. Nothing is
/// promised of it.
#[verifier::external_body]
pub(crate) fn data_dir() -> (d: Option<String>) {
    dirs::data_dir().map(|p| p.to_string_lossy().to_string())
}

/// The home directory, or `/` where there is none.
pub fn home_or_root() -> (h: String) {
    match home_dir() {
        Some(h) => h,
        None => String::from_str("/"),
    }
}

} // verus!
