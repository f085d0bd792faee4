use rstat::lookups::Lookups;
use rstat::options::OptionSelected;
use rstat::record::{FileStat, Outcome, RawStat, RawStatfs};

fn sample_stat() -> RawStat {
    RawStat {
        st_dev: 0x801,
        st_ino: 42,
        st_nlink: 1,
        st_mode: 0o100644,
        st_uid: 1000,
        st_gid: 100,
        st_size: 5,
        st_blksize: 4096,
        st_blocks: 8,
        st_atime: 100,
        st_atime_nsec: 11,
        st_mtime: 200,
        st_mtime_nsec: 22,
        st_ctime: 300,
        st_ctime_nsec: 33,
    }
}

fn file_rec(name: &str, st: RawStat) -> FileStat {
    FileStat {
        filename: String::from(name),
        outcome: Outcome::FileInfo(st),
        blinker: false,
        oriname: String::new(),
    }
}

fn failed_rec(name: &str, err: &str) -> FileStat {
    FileStat {
        filename: String::from(name),
        outcome: Outcome::Failure(String::from(err)),
        blinker: false,
        oriname: String::new(),
    }
}

fn sample_lookups() -> Lookups {
    Lookups {
        user_name: String::from("alice"),
        group_name: String::from("users"),
        atime_str: String::from("A"),
        mtime_str: String::from("M"),
        ctime_str: String::from("C"),
    }
}

fn sample_statfs() -> RawStatfs {
    RawStatfs {
        f_type: 0xef53,
        f_bsize: 4096,
        f_blocks: 1000,
        f_bfree: 600,
        f_bavail: 500,
        f_files: 320,
        f_ffree: 300,
        f_fsid: 0xabcd,
        f_namelen: 255,
        f_frsize: 2048,
    }
}

fn fs_rec(name: &str, st: RawStatfs) -> FileStat {
    FileStat {
        filename: String::from(name),
        outcome: Outcome::FilesystemInfo(st),
        blinker: false,
        oriname: String::new(),
    }
}

#[test]
fn terse_file_line_layout() {
    let recs = vec![file_rec("f", sample_stat())];
    assert_eq!(
        OptionSelected::output_with_terse_file(&recs),
        "f 5 8 81a4 1000 100 801 42 1 0 0 100 200 300 0 4096\n"
    );
}

#[test]
fn terse_batch_isolates_failures() {
    // One bad path never stops the batch: the failed record becomes
    // one diagnostic line and the records after it still render.
    let recs = vec![
        file_rec("/exists", sample_stat()),
        failed_rec("/does/not/exist", "No such file or directory"),
        file_rec("after", sample_stat()),
    ];
    let out = OptionSelected::output_with_terse_file(&recs);
    let lines: Vec<&str> = out.lines().collect();
    assert_eq!(lines.len(), 3);
    assert!(lines[0].starts_with("/exists "));
    assert_eq!(
        lines[1],
        "stat: cannot stat '/does/not/exist': No such file or directory"
    );
    assert!(lines[2].starts_with("after "));
}

#[test]
fn terse_filesystem_line_layout() {
    let recs = vec![fs_rec("fs", sample_statfs())];
    assert_eq!(
        OptionSelected::output_with_terse_filesystem(&recs),
        "fs  abcd 255 500 4096 2048 300 600 61267\n"
    );
}

#[test]
fn terse_filesystem_isolates_failures() {
    let recs = vec![failed_rec("gone", "boom"), fs_rec("fs", sample_statfs())];
    let out = OptionSelected::output_with_terse_filesystem(&recs);
    assert_eq!(
        out,
        "stat: cannot stat 'gone': boom\nfs  abcd 255 500 4096 2048 300 600 61267\n"
    );
}

#[test]
fn normal_file_layout() {
    let recs = vec![file_rec("f", sample_stat())];
    let lks = vec![sample_lookups()];
    let expected = "  File: f\n  Size: 5               Blocks: 8          IO Block: 4096   regular file\nDevice: 801h/2049d      Inode: 42          Links: 1\nAccess: (0644/-rw-r--r--)  Uid: ( 1000/   alice)   Gid: (  100/   users)\nAccess: A.11 +00:00\nModify: M.22 +00:00\nChange: C.33 +00:00\nBirth: -\n\n";
    assert_eq!(OptionSelected::output_normal_file(&recs, &lks, "+00:00"), expected);
}

#[test]
fn normal_file_layout_of_a_symlink_shows_the_target() {
    let mut st = sample_stat();
    st.st_mode = 0o120777;
    let rec = FileStat {
        filename: String::from("l"),
        outcome: Outcome::FileInfo(st),
        blinker: true,
        oriname: String::from("t"),
    };
    let lks = vec![sample_lookups()];
    let out = OptionSelected::output_normal_file(&vec![rec], &lks, "+00:00");
    assert!(out.starts_with("  File: l -> t\n"));
    assert!(out.contains("symbolic link\n"));
    assert!(out.contains("(0777/lrwxrwxrwx)"));
}

#[test]
fn normal_file_isolates_failures() {
    let recs = vec![failed_rec("x", "denied"), file_rec("f", sample_stat())];
    let lks = vec![sample_lookups(), sample_lookups()];
    let out = OptionSelected::output_normal_file(&recs, &lks, "+00:00");
    assert!(out.starts_with("stat: cannot stat 'x': denied\n  File: f\n"));
}

#[test]
fn normal_filesystem_layout() {
    let recs = vec![fs_rec("fs", sample_statfs())];
    let expected = "  File: \"fs\"\n    ID: abcd Namelen: 255     Type: ext2/ext3\nBlock size: 2048       Fundamental block size: 4096\nBlocks: Total: 1000       Free: 600        Available: 500\nInodes: Total: 320        Free: 300\n\n";
    assert_eq!(OptionSelected::output_normal_filesystem(&recs), expected);
}

#[test]
fn normal_filesystem_isolates_failures() {
    let recs = vec![failed_rec("x", "denied"), fs_rec("fs", sample_statfs())];
    let out = OptionSelected::output_normal_filesystem(&recs);
    assert!(out.starts_with("stat: cannot stat 'x': denied\n  File: \"fs\"\n"));
}
