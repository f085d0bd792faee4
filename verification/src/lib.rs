//! A verified engine for reporting file and filesystem metadata in
//! the manner of the Unix `stat` utility: decoding packed mode bits
//! into type and permission views, interpreting a printf-style
//! directive language over metadata records, and rendering batches of
//! records under terse, custom and default layouts with per-record
//! failure isolation. Callers perform the system queries and hand the
//! reported fields in as plain values.
pub mod lookups;
pub mod mode;
pub mod options;
pub mod record;
pub mod render;
pub mod text;
