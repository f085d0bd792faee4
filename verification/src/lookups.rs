//! The external lookups a rendered record draws on: local-time forms
//! of its timestamps, resolved once per record, next to the owner and
//! group names that the caller resolved.
use vstd::prelude::*;
use vstd::string::StringExecFns;
use crate::record::{FileStat, Outcome};

verus! {

/// The resolved lookup text of one record: the owner and group names
/// and the local-time form of each timestamp. The render contracts
/// take these as given values; what they hold depends on the machine.
pub struct Lookups {
    /// Name of the owning user.
    pub user_name: String,
    /// Name of the owning group.
    pub group_name: String,
    /// Local calendar form of the access time.
    pub atime_str: String,
    /// Local calendar form of the modification time.
    pub mtime_str: String,
    /// Local calendar form of the status change time.
    pub ctime_str: String,
}

/// Relies on chrono's `DateTime::from_timestamp`, `with_timezone` with
/// the `Local` zone, and `format` with the fixed specifier
/// `%Y-%m-%d %H:%M:%S`: the timestamp becomes local calendar text.
/// `from_timestamp` returns `None` on an out-of-range number of
/// seconds; the text otherwise depends on the machine's time zone, so
/// nothing is promised of it.
#[verifier::external_body]
fn local_time_string(tc: i64, tn: u32) -> Option<String>
    requires
        tn < 1_000_000_000,
{
    match chrono::DateTime::from_timestamp(tc, tn) {
        None => None,
        Some(da) => Some(da.with_timezone(&chrono::Local).format("%Y-%m-%d %H:%M:%S").to_string()),
    }
}

/// Relies on chrono's `Local::now` and the `Display` form of its
/// offset: the machine's current UTC offset, such as `+08:00`. The
/// text depends on the clock and time zone, so nothing is promised of
/// it. `Local::now` panics when the system clock reads before the
/// Unix epoch — a machine condition, not an input.
#[verifier::external_body]
pub(crate) fn local_offset_string() -> String {
    chrono::Local::now().offset().to_string()
}

/// The local calendar form of one timestamp. A nanosecond part
/// outside its range or an out-of-range number of seconds yields the
/// placeholder `-`; otherwise the text is whatever the time-zone
/// conversion reported.
pub fn get_time_utc2local(tc: i64, tn: i64) -> (r: String)
    ensures
        !(0 <= tn < 1_000_000_000) ==> r@ == "-"@,
{
    if 0 <= tn && tn < 1_000_000_000 {
        match local_time_string(tc, tn as u32) {
            Some(s) => s,
            None => String::from_str("-"),
        }
    } else {
        String::from_str("-")
    }
}

/// Resolves the lookup text of one record: the three timestamps of a
/// file record go through the local-time conversion, each yielding
/// the placeholder where its nanosecond field is out of range; the
/// given owner and group names are carried as they are.
pub fn make_lookups(rec: &FileStat, user_name: String, group_name: String) -> (r: Lookups)
    ensures
        r.user_name@ == user_name@,
        r.group_name@ == group_name@,
        !(rec.outcome is FileInfo) ==> r.atime_str@ == "-"@ && r.mtime_str@ == "-"@
            && r.ctime_str@ == "-"@,
        rec.outcome matches Outcome::FileInfo(st) ==> {
            &&& !(0 <= st.st_atime_nsec < 1_000_000_000) ==> r.atime_str@ == "-"@
            &&& !(0 <= st.st_mtime_nsec < 1_000_000_000) ==> r.mtime_str@ == "-"@
            &&& !(0 <= st.st_ctime_nsec < 1_000_000_000) ==> r.ctime_str@ == "-"@
        },
{
    match &rec.outcome {
        Outcome::FileInfo(st) => Lookups {
            user_name,
            group_name,
            atime_str: get_time_utc2local(st.st_atime, st.st_atime_nsec),
            mtime_str: get_time_utc2local(st.st_mtime, st.st_mtime_nsec),
            ctime_str: get_time_utc2local(st.st_ctime, st.st_ctime_nsec),
        },
        _ => Lookups {
            user_name,
            group_name,
            atime_str: String::from_str("-"),
            mtime_str: String::from_str("-"),
            ctime_str: String::from_str("-"),
        },
    }
}

} // verus!
