use rstat::lookups::{get_time_utc2local, make_lookups, Lookups};
use rstat::options::{OptionSelected, StatError};
use rstat::record::{
    get_file_stat, get_file_stat_link, get_file_statfs, get_link_oriname, get_new_stat,
    get_new_statfs, FileStat, Outcome, RawStat,
};
use rstat::render::output_more_help;
use rstat::text::{i64_dec_chars, u64_dec_chars, u64_hex_chars};

fn link_stat() -> RawStat {
    let mut st = get_new_stat();
    st.st_mode = 0o120777;
    st
}

fn plain_stat() -> RawStat {
    let mut st = get_new_stat();
    st.st_mode = 0o100644;
    st
}

#[test]
fn new_snapshots_are_zeroed() {
    let st = get_new_stat();
    assert_eq!(st.st_dev, 0);
    assert_eq!(st.st_mode, 0);
    assert_eq!(st.st_size, 0);
    assert_eq!(st.st_ctime_nsec, 0);
    let fs = get_new_statfs();
    assert_eq!(fs.f_type, 0);
    assert_eq!(fs.f_blocks, 0);
    assert_eq!(fs.f_namelen, 0);
}

#[test]
fn link_referent_falls_back_to_the_link_name() {
    assert_eq!(
        get_link_oriname(String::from("l"), Some(String::from("target"))),
        "target"
    );
    assert_eq!(get_link_oriname(String::from("l"), None), "l");
}

#[test]
fn no_follow_query_on_a_symlink_resolves_the_target() {
    let rec = get_file_stat(String::from("l"), Ok(link_stat()), Some(String::from("t")));
    assert!(rec.blinker);
    assert_eq!(rec.oriname, "t");
    assert!(matches!(rec.outcome, Outcome::FileInfo(_)));
}

#[test]
fn no_follow_query_falls_back_when_the_target_is_unreadable() {
    let rec = get_file_stat(String::from("l"), Ok(link_stat()), None);
    assert!(rec.blinker);
    assert_eq!(rec.oriname, "l");
}

#[test]
fn no_follow_query_on_a_plain_file_sets_no_mark() {
    let rec = get_file_stat(String::from("f"), Ok(plain_stat()), None);
    assert!(!rec.blinker);
    assert_eq!(rec.oriname, "");
}

#[test]
fn follow_query_never_sets_the_symlink_mark() {
    // Even a mode word that marks a link leaves the record unmarked:
    // the query already followed every link.
    let rec = get_file_stat_link(String::from("l"), Ok(link_stat()));
    assert!(!rec.blinker);
    assert_eq!(rec.oriname, "");
}

#[test]
fn failed_query_yields_a_dead_record() {
    let rec = get_file_stat(String::from("x"), Err(String::from("denied")), None);
    assert!(!rec.blinker);
    assert_eq!(rec.oriname, "");
    match rec.outcome {
        Outcome::Failure(e) => assert_eq!(e, "denied"),
        _ => panic!("expected a failure outcome"),
    }
    let rec = get_file_stat_link(String::from("x"), Err(String::from("denied")));
    assert!(matches!(rec.outcome, Outcome::Failure(_)));
    let rec = get_file_statfs(String::from("x"), Err(String::from("denied")));
    assert!(matches!(rec.outcome, Outcome::Failure(_)));
}

#[test]
fn filesystem_query_keeps_its_snapshot() {
    let mut fs = get_new_statfs();
    fs.f_blocks = 7;
    let rec = get_file_statfs(String::from("fs"), Ok(fs));
    match rec.outcome {
        Outcome::FilesystemInfo(s) => assert_eq!(s.f_blocks, 7),
        _ => panic!("expected a filesystem outcome"),
    }
    assert!(!rec.blinker);
}

#[test]
fn out_of_range_timestamps_become_the_placeholder() {
    assert_eq!(get_time_utc2local(0, -1), "-");
    assert_eq!(get_time_utc2local(0, 1_000_000_000), "-");
    assert_eq!(get_time_utc2local(i64::MAX, 0), "-");
}

#[test]
fn ordinary_timestamps_convert_to_some_text() {
    assert!(!get_time_utc2local(0, 0).is_empty());
    assert!(!get_time_utc2local(1_600_000_000, 999_999_999).is_empty());
}

#[test]
fn lookups_keep_the_given_names() {
    let rec = get_file_stat(String::from("f"), Ok(plain_stat()), None);
    let lk = make_lookups(&rec, String::from("u"), String::from("g"));
    assert_eq!(lk.user_name, "u");
    assert_eq!(lk.group_name, "g");
}

#[test]
fn terse_and_custom_together_are_rejected_before_any_query() {
    let mut o = OptionSelected::default();
    assert!(o
        .readoption(vec![
            String::from("prog"),
            String::from("-t"),
            String::from("-c"),
            String::from("%n"),
            String::from("f"),
        ])
        .is_ok());
    // The configuration is rejected up front, before any record
    // exists to acquire or render.
    assert_eq!(o.check_options(), Err(StatError::WrongOption));
    let no_records: Vec<FileStat> = Vec::new();
    let no_lookups: Vec<Lookups> = Vec::new();
    assert!(matches!(
        o.output(&no_records, &no_lookups),
        Err(StatError::WrongOption)
    ));
}

#[test]
fn either_mode_alone_is_accepted() {
    let mut o = OptionSelected::default();
    assert!(o
        .readoption(vec![String::from("prog"), String::from("-t"), String::from("f")])
        .is_ok());
    assert_eq!(o.check_options(), Ok(()));
}

#[test]
fn output_dispatches_to_the_terse_layout() {
    let mut o = OptionSelected::default();
    assert!(o
        .readoption(vec![String::from("prog"), String::from("-t"), String::from("f")])
        .is_ok());
    let rec = get_file_stat(String::from("f"), Ok(plain_stat()), None);
    let lk = make_lookups(&rec, String::from("u"), String::from("g"));
    let out = o.output(&vec![rec], &vec![lk]).unwrap();
    assert_eq!(out, "f 0 0 81a4 0 0 0 0 0 0 0 0 0 0 0 0\n");
}

#[test]
fn output_dispatches_to_the_custom_layout() {
    let mut o = OptionSelected::default();
    assert!(o
        .readoption(vec![
            String::from("prog"),
            String::from("-c"),
            String::from("<%n>"),
            String::from("f"),
        ])
        .is_ok());
    let rec = get_file_stat(String::from("f"), Ok(plain_stat()), None);
    let lk = make_lookups(&rec, String::from("u"), String::from("g"));
    let out = o.output(&vec![rec], &vec![lk]).unwrap();
    assert_eq!(out, "<f>\n");
}

#[test]
fn output_appends_the_directive_reference_on_request() {
    let mut o = OptionSelected::default();
    assert!(o
        .readoption(vec![String::from("prog"), String::from("-tH")])
        .is_ok());
    let no_records: Vec<FileStat> = Vec::new();
    let no_lookups: Vec<Lookups> = Vec::new();
    let out = o.output(&no_records, &no_lookups).unwrap();
    assert!(out.contains("%a   access rights in octal"));
    assert!(out.ends_with('\n'));
}

#[test]
fn directive_reference_covers_both_tables() {
    let help = output_more_help();
    assert!(help.contains("%N   quoted file name with dereference if symbolic link"));
    assert!(help.contains("Valid format sequences for file systems"));
    assert!(help.contains("%T   file system type in human readable form"));
}

#[test]
fn numerals_render_exactly() {
    assert_eq!(u64_dec_chars(0).iter().collect::<String>(), "0");
    assert_eq!(u64_dec_chars(90210).iter().collect::<String>(), "90210");
    assert_eq!(u64_dec_chars(u64::MAX).iter().collect::<String>(), "18446744073709551615");
    assert_eq!(u64_hex_chars(255).iter().collect::<String>(), "ff");
    assert_eq!(u64_hex_chars(0xdeadbeef).iter().collect::<String>(), "deadbeef");
    assert_eq!(i64_dec_chars(-5).iter().collect::<String>(), "-5");
    assert_eq!(i64_dec_chars(0).iter().collect::<String>(), "0");
    assert_eq!(
        i64_dec_chars(i64::MIN).iter().collect::<String>(),
        "-9223372036854775808"
    );
    assert_eq!(
        i64_dec_chars(i64::MAX).iter().collect::<String>(),
        "9223372036854775807"
    );
}
