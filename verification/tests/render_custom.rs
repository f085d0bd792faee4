use rstat::lookups::Lookups;
use rstat::options::OptionSelected;
use rstat::record::{FileStat, Outcome, RawStat, RawStatfs};

fn sample_stat() -> RawStat {
    RawStat {
        st_dev: 0x801,
        st_ino: 42,
        st_nlink: 1,
        st_mode: 0o100644,
        st_uid: 1000,
        st_gid: 100,
        st_size: 5,
        st_blksize: 4096,
        st_blocks: 8,
        st_atime: 100,
        st_atime_nsec: 11,
        st_mtime: 200,
        st_mtime_nsec: 22,
        st_ctime: 300,
        st_ctime_nsec: 33,
    }
}

fn file_rec(name: &str, st: RawStat) -> FileStat {
    FileStat {
        filename: String::from(name),
        outcome: Outcome::FileInfo(st),
        blinker: false,
        oriname: String::new(),
    }
}

fn sample_lookups() -> Lookups {
    Lookups {
        user_name: String::from("alice"),
        group_name: String::from("users"),
        atime_str: String::from("A"),
        mtime_str: String::from("M"),
        ctime_str: String::from("C"),
    }
}

fn render(fmt: &str) -> String {
    let recs = vec![file_rec("f", sample_stat())];
    let lks = vec![sample_lookups()];
    OptionSelected::output_with_fileter_file(fmt, &recs, &lks)
}

#[test]
fn double_percent_is_one_literal_percent() {
    assert_eq!(render("100%%"), "100%\n");
}

#[test]
fn escape_clears_after_double_percent() {
    assert_eq!(render("%%a"), "%a\n");
}

#[test]
fn unknown_directive_degrades_to_its_letter() {
    assert_eq!(render("%Q"), "Q\n");
    assert_eq!(render("a%qb"), "aqb\n");
}

#[test]
fn plain_text_passes_through() {
    assert_eq!(render("hello"), "hello\n");
}

#[test]
fn trailing_percent_emits_nothing() {
    assert_eq!(render("ab%"), "ab\n");
}

#[test]
fn name_and_size_directives() {
    assert_eq!(render("%n is %s bytes"), "f is 5 bytes\n");
}

#[test]
fn permission_directives() {
    assert_eq!(render("%a %A"), "0644 rw-r--r--\n");
}

#[test]
fn raw_mode_and_type_directives() {
    assert_eq!(render("%f %F"), "81a4 regular file\n");
}

#[test]
fn device_directives() {
    assert_eq!(render("%d %D"), "2049 801\n");
}

#[test]
fn owner_directives() {
    assert_eq!(render("%u %g %U:%G"), "1000 100 alice:users\n");
}

#[test]
fn block_directives() {
    assert_eq!(render("%b %o %B"), "8 4096 512\n");
}

#[test]
fn block_ratio_with_zero_blocks_is_zero() {
    let mut st = sample_stat();
    st.st_blocks = 0;
    let recs = vec![file_rec("f", st)];
    let lks = vec![sample_lookups()];
    assert_eq!(OptionSelected::output_with_fileter_file("%B", &recs, &lks), "0\n");
}

#[test]
fn link_and_inode_directives() {
    assert_eq!(render("%h %i"), "1 42\n");
}

#[test]
fn time_directives_use_the_resolved_text() {
    assert_eq!(render("%x|%y|%z"), "A|M|C\n");
    assert_eq!(render("%X %Y %Z"), "100 200 300\n");
}

#[test]
fn placeholder_directives() {
    assert_eq!(render("%m %w %W"), "/ - -\n");
    assert_eq!(render("%t%T"), "!t!!T!\n");
}

#[test]
fn security_context_directive_is_fixed_text() {
    assert!(render("%C").contains("failed to get security context"));
}

#[test]
fn quoted_name_of_a_plain_file() {
    assert_eq!(render("%N"), "'f'\n");
}

#[test]
fn quoted_name_of_a_symlink_shows_the_target() {
    let mut st = sample_stat();
    st.st_mode = 0o120777;
    let rec = FileStat {
        filename: String::from("l"),
        outcome: Outcome::FileInfo(st),
        blinker: true,
        oriname: String::from("t"),
    };
    let lks = vec![sample_lookups()];
    assert_eq!(OptionSelected::output_with_fileter_file("%N", &vec![rec], &lks), "'l' -> 't'\n");
}

#[test]
fn failed_record_renders_as_diagnostic_in_custom_mode() {
    let rec = FileStat {
        filename: String::from("x"),
        outcome: Outcome::Failure(String::from("boom")),
        blinker: false,
        oriname: String::new(),
    };
    let lks = vec![sample_lookups()];
    assert_eq!(OptionSelected::output_with_fileter_file("%n", &vec![rec], &lks), "stat: cannot stat 'x': boom\n\n");
}

#[test]
fn every_record_is_rendered_in_order() {
    let recs = vec![file_rec("a", sample_stat()), file_rec("b", sample_stat())];
    let lks = vec![sample_lookups(), sample_lookups()];
    assert_eq!(OptionSelected::output_with_fileter_file("%n;", &recs, &lks), "a;b;\n");
}

fn sample_statfs() -> RawStatfs {
    RawStatfs {
        f_type: 0xef53,
        f_bsize: 4096,
        f_blocks: 1000,
        f_bfree: 600,
        f_bavail: 500,
        f_files: 320,
        f_ffree: 300,
        f_fsid: 0xabcd,
        f_namelen: 255,
        f_frsize: 2048,
    }
}

fn fs_rec(name: &str, st: RawStatfs) -> FileStat {
    FileStat {
        filename: String::from(name),
        outcome: Outcome::FilesystemInfo(st),
        blinker: false,
        oriname: String::new(),
    }
}

#[test]
fn filesystem_custom_output_is_only_the_records() {
    let recs = vec![fs_rec("fs", sample_statfs())];
    assert_eq!(OptionSelected::output_with_fileter_filesystem("%b", &recs), "1000\n");
}

#[test]
fn filesystem_directives() {
    let recs = vec![fs_rec("fs", sample_statfs())];
    assert_eq!(
        OptionSelected::output_with_fileter_filesystem("%a %c %d %f", &recs),
        "500 320 300 600\n"
    );
    assert_eq!(
        OptionSelected::output_with_fileter_filesystem("%n %s %S", &recs),
        "fs 4096 2048\n"
    );
    assert_eq!(OptionSelected::output_with_fileter_filesystem("%t %T", &recs), "ef53 61267\n");
    assert_eq!(OptionSelected::output_with_fileter_filesystem("%i", &recs), "abcd\n");
}

#[test]
fn filesystem_unknown_directive_degrades_to_its_letter() {
    let recs = vec![fs_rec("fs", sample_statfs())];
    assert_eq!(OptionSelected::output_with_fileter_filesystem("%Q%%", &recs), "Q%\n");
}

#[test]
fn filesystem_failure_renders_as_diagnostic() {
    let rec = FileStat {
        filename: String::from("nope"),
        outcome: Outcome::Failure(String::from("gone")),
        blinker: false,
        oriname: String::new(),
    };
    assert_eq!(
        OptionSelected::output_with_fileter_filesystem("%b", &vec![rec]),
        "stat: cannot stat 'nope': gone\n\n"
    );
}
