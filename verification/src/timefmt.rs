//! Timestamp rendering. The instant an entry carries is a plain count
//! of milliseconds since the Unix epoch; turning it into civil UTC
//! text is delegated to chrono behind a trusted wrapper.

use vstd::prelude::*;

verus! {

/// Largest magnitude, in milliseconds since the Unix epoch, of an
/// instant handed to the timestamp formatter. Roughly 251,000 years
/// either side of the epoch, comfortably inside the range chrono's
/// calendar can represent.
pub const TS_MS_LIMIT: i64 = 8_000_000_000_000_000;

/// The civil UTC text `YYYY-MM-DD HH:MM:SS` of an instant given in
/// milliseconds since the Unix epoch. A function of the instant alone;
/// what it reads on given values is settled only by the formatter
/// below.
pub uninterp spec fn timestamp_text(ms: int) -> Seq<char>;

/// Relies on chrono's `DateTime::<Utc>::from_timestamp_millis` and
/// `DateTime::format` with `%Y-%m-%d %H:%M:%S`: the text depends on
/// the instant alone. `from_timestamp_millis` returns `None` only for
/// instants outside chrono's calendar, which the bound on `ms` keeps
/// out.
#[verifier::external_body]
pub(crate) fn format_timestamp(ms: i64) -> (r: String)
    requires
        -TS_MS_LIMIT <= ms <= TS_MS_LIMIT,
    ensures
        r@ == timestamp_text(ms as int),
{
    let dt = chrono::DateTime::<chrono::Utc>::from_timestamp_millis(ms).unwrap();
    dt.format("%Y-%m-%d %H:%M:%S").to_string()
}

/// Relies on `chrono::Utc::now` and `DateTime::timestamp`: the current
/// time as whole seconds since the Unix epoch. Nothing is promised of
/// the value; callers state what holds whatever comes back.
#[verifier::external_body]
pub(crate) fn now_epoch_seconds() -> i64 {
    chrono::Utc::now().timestamp()
}

} // verus!
