//! Rendering metadata records as text: the terse fixed-column
//! layouts, the directive interpreter behind custom formats, the
//! labeled default layouts, and the dispatch that selects among them.
use vstd::prelude::*;
use crate::lookups::{local_offset_string, Lookups};
use crate::options::{OptState, OptionSelected, StatError};
use crate::mode::{
    file_type_of, long_name, octal_chars, octal_digits, short_char, symbolic_chars,
    symbolic_perm_chars, FileType,
};
use crate::record::{FileStat, Outcome, RawStat, RawStatfs};
use crate::text::{
    append_str, chars_to_string, dec_digits, dec_int, hex_digits, i64_dec_chars, pad_left,
    pad_left_chars, pad_right, pad_right_chars, str_to_chars, u64_dec_chars, u64_hex_chars,
};

verus! {

/// The magnitude of an integer.
pub open spec fn abs_int(a: int) -> int {
    if a < 0 {
        -a
    } else {
        a
    }
}

/// Integer division truncated toward zero, as the hardware divides,
/// with a zero divisor yielding zero.
pub open spec fn quotient_trunc(a: int, b: int) -> int {
    if b == 0 {
        0
    } else if (a < 0) == (b < 0) {
        abs_int(a) / abs_int(b)
    } else {
        -(abs_int(a) / abs_int(b))
    }
}

/// The block-size ratio a `B` directive shows: block size over block
/// count, truncated; zero where the count is zero or the quotient has
/// no 64-bit representation.
pub open spec fn blk_ratio(st: RawStat) -> int {
    if st.st_blocks == 0 || (st.st_blksize == i64::MIN && st.st_blocks == -1) {
        0
    } else {
        quotient_trunc(st.st_blksize as int, st.st_blocks as int)
    }
}

/// The truncated quotient of block size over block count.
fn blk_quotient(blksize: i64, blocks: i64) -> (q: i64)
    ensures
        q as int == (if blocks == 0 || (blksize == i64::MIN && blocks == -1) {
            0int
        } else {
            quotient_trunc(blksize as int, blocks as int)
        }),
{
    if blocks == 0 || (blksize == i64::MIN && blocks == -1) {
        return 0;
    }
    let ma: u64 = if blksize == i64::MIN {
        9223372036854775808u64
    } else if blksize < 0 {
        (-blksize) as u64
    } else {
        blksize as u64
    };
    let mb: u64 = if blocks == i64::MIN {
        9223372036854775808u64
    } else if blocks < 0 {
        (-blocks) as u64
    } else {
        blocks as u64
    };
    proof {
        assert(ma as int == abs_int(blksize as int));
        assert(mb as int == abs_int(blocks as int));
        assert(mb >= 1);
    }
    let q = ma / mb;
    if (blksize < 0) != (blocks < 0) {
        if q == 9223372036854775808u64 {
            i64::MIN
        } else {
            proof {
                assert(q < 9223372036854775808u64) by (nonlinear_arith)
                    requires
                        q == ma / mb,
                        ma <= 9223372036854775808u64,
                        mb >= 1,
                        q != 9223372036854775808u64,
                ;
            }
            -(q as i64)
        }
    } else {
        proof {
            assert(q < 9223372036854775808u64) by (nonlinear_arith)
                requires
                    q == ma / mb,
                    (ma < 9223372036854775808u64 && mb >= 1) || (ma == 9223372036854775808u64
                        && mb >= 2),
            ;
        }
        q as i64
    }
}

/// What one file directive letter stands for: the extracted field of
/// the record, or the letter itself where the table has no entry.
pub open spec fn file_directive(c: char, rec: FileStat, st: RawStat, lk: Lookups) -> Seq<char> {
    if c == 'a' {
        octal_digits(st.st_mode)
    } else if c == 'A' {
        symbolic_chars(st.st_mode)
    } else if c == 'b' {
        dec_int(st.st_blocks as int)
    } else if c == 'B' {
        dec_int(blk_ratio(st))
    } else if c == 'C' {
        "rstat: failed to get security context of 'dfs.sh': No data available \n?"@
    } else if c == 'd' {
        dec_digits(st.st_dev as nat)
    } else if c == 'D' {
        hex_digits(st.st_dev as nat)
    } else if c == 'f' {
        hex_digits(st.st_mode as nat)
    } else if c == 'F' {
        long_name(file_type_of(st.st_mode))
    } else if c == 'g' {
        dec_digits(st.st_gid as nat)
    } else if c == 'G' {
        lk.group_name@
    } else if c == 'h' {
        dec_digits(st.st_nlink as nat)
    } else if c == 'i' {
        dec_digits(st.st_ino as nat)
    } else if c == 'm' {
        seq!['/']
    } else if c == 'n' {
        rec.filename@
    } else if c == 'N' {
        quoted_name(rec)
    } else if c == 'o' {
        dec_int(st.st_blksize as int)
    } else if c == 's' {
        dec_int(st.st_size as int)
    } else if c == 't' {
        "!t!"@
    } else if c == 'T' {
        "!T!"@
    } else if c == 'u' {
        dec_digits(st.st_uid as nat)
    } else if c == 'U' {
        lk.user_name@
    } else if c == 'w' {
        seq!['-']
    } else if c == 'W' {
        seq!['-']
    } else if c == 'x' {
        lk.atime_str@
    } else if c == 'X' {
        dec_int(st.st_atime as int)
    } else if c == 'y' {
        lk.mtime_str@
    } else if c == 'Y' {
        dec_int(st.st_mtime as int)
    } else if c == 'z' {
        lk.ctime_str@
    } else if c == 'Z' {
        dec_int(st.st_ctime as int)
    } else {
        seq![c]
    }
}

/// The quoted form of a record's name: the referent follows after an
/// arrow when the record is a symbolic link.
pub open spec fn quoted_name(rec: FileStat) -> Seq<char> {
    if rec.blinker {
        seq!['\''] + rec.filename@ + "' -> '"@ + rec.oriname@ + seq!['\'']
    } else {
        seq!['\''] + rec.filename@ + seq!['\'']
    }
}

/// Renders one file directive letter.
fn eval_file_directive(c: char, rec: &FileStat, st: &RawStat, lk: &Lookups) -> (r: Vec<char>)
    ensures
        r@ == file_directive(c, *rec, *st, *lk),
{
    if c == 'a' {
        octal_chars(st.st_mode)
    } else if c == 'A' {
        symbolic_perm_chars(st.st_mode)
    } else if c == 'b' {
        i64_dec_chars(st.st_blocks)
    } else if c == 'B' {
        i64_dec_chars(blk_quotient(st.st_blksize, st.st_blocks))
    } else if c == 'C' {
        str_to_chars("rstat: failed to get security context of 'dfs.sh': No data available \n?")
    } else if c == 'd' {
        u64_dec_chars(st.st_dev)
    } else if c == 'D' {
        u64_hex_chars(st.st_dev)
    } else if c == 'f' {
        u64_hex_chars(st.st_mode as u64)
    } else if c == 'F' {
        str_to_chars(FileType::get_file_type(st.st_mode).display_name())
    } else if c == 'g' {
        u64_dec_chars(st.st_gid as u64)
    } else if c == 'G' {
        str_to_chars(lk.group_name.as_str())
    } else if c == 'h' {
        u64_dec_chars(st.st_nlink)
    } else if c == 'i' {
        u64_dec_chars(st.st_ino)
    } else if c == 'm' {
        let mut v: Vec<char> = Vec::new();
        v.push('/');
        proof {
            assert(v@ =~= seq!['/']);
        }
        v
    } else if c == 'n' {
        str_to_chars(rec.filename.as_str())
    } else if c == 'N' {
        let mut v: Vec<char> = Vec::new();
        v.push('\'');
        append_str(&mut v, rec.filename.as_str());
        if rec.blinker {
            append_str(&mut v, "' -> '");
            append_str(&mut v, rec.oriname.as_str());
        }
        v.push('\'');
        proof {
            assert(v@ =~= quoted_name(*rec));
        }
        v
    } else if c == 'o' {
        i64_dec_chars(st.st_blksize)
    } else if c == 's' {
        i64_dec_chars(st.st_size)
    } else if c == 't' {
        str_to_chars("!t!")
    } else if c == 'T' {
        str_to_chars("!T!")
    } else if c == 'u' {
        u64_dec_chars(st.st_uid as u64)
    } else if c == 'U' {
        str_to_chars(lk.user_name.as_str())
    } else if c == 'w' {
        let mut v: Vec<char> = Vec::new();
        v.push('-');
        proof {
            assert(v@ =~= seq!['-']);
        }
        v
    } else if c == 'W' {
        let mut v: Vec<char> = Vec::new();
        v.push('-');
        proof {
            assert(v@ =~= seq!['-']);
        }
        v
    } else if c == 'x' {
        str_to_chars(lk.atime_str.as_str())
    } else if c == 'X' {
        i64_dec_chars(st.st_atime)
    } else if c == 'y' {
        str_to_chars(lk.mtime_str.as_str())
    } else if c == 'Y' {
        i64_dec_chars(st.st_mtime)
    } else if c == 'z' {
        str_to_chars(lk.ctime_str.as_str())
    } else if c == 'Z' {
        i64_dec_chars(st.st_ctime)
    } else {
        let mut v: Vec<char> = Vec::new();
        v.push(c);
        proof {
            assert(v@ =~= seq![c]);
        }
        v
    }
}

/// One left-to-right pass of the directive interpreter over the
/// format text from position `i` on, with `esc` the escape-pending
/// flag: a first `%` sets the flag, `%%` emits one `%` and clears it,
/// any other character under the flag is looked up as a directive,
/// and everything else passes through verbatim. A pending flag at the
/// end emits nothing.
pub open spec fn render_file_chars(
    fmt: Seq<char>,
    i: int,
    esc: bool,
    rec: FileStat,
    st: RawStat,
    lk: Lookups,
) -> Seq<char>
    decreases fmt.len() - i,
{
    if i < 0 || i >= fmt.len() {
        Seq::empty()
    } else {
        let c = fmt[i];
        if c == '%' {
            if esc {
                seq!['%'] + render_file_chars(fmt, i + 1, false, rec, st, lk)
            } else {
                render_file_chars(fmt, i + 1, true, rec, st, lk)
            }
        } else if esc {
            file_directive(c, rec, st, lk) + render_file_chars(fmt, i + 1, false, rec, st, lk)
        } else {
            seq![c] + render_file_chars(fmt, i + 1, false, rec, st, lk)
        }
    }
}

/// The custom-format text of one file record: the directive string
/// evaluated against its fields, a failed record as its diagnostic
/// line.
pub open spec fn custom_file_record(fmt: Seq<char>, rec: FileStat, lk: Lookups) -> Seq<char> {
    match rec.outcome {
        Outcome::Failure(e) => cannot_stat_line(rec.filename@, e@),
        Outcome::FileInfo(st) => render_file_chars(fmt, 0, false, rec, st, lk),
        Outcome::FilesystemInfo(_) => Seq::empty(),
    }
}

/// Renders the custom-format text of one file record.
fn custom_file_line(fmt: &str, rec: &FileStat, lk: &Lookups) -> (r: Vec<char>)
    requires
        !(rec.outcome is FilesystemInfo),
    ensures
        r@ == custom_file_record(fmt@, *rec, *lk),
{
    match &rec.outcome {
        Outcome::Failure(_) => cannot_stat_chars(rec),
        Outcome::FileInfo(st) => {
            let n = fmt.unicode_len();
            let mut out: Vec<char> = Vec::new();
            let mut esc: bool = false;
            let mut i: usize = 0;
            while i < n
                invariant
                    i <= n,
                    n == fmt@.len(),
                    render_file_chars(fmt@, 0, false, *rec, *st, *lk) == out@ + render_file_chars(
                        fmt@,
                        i as int,
                        esc,
                        *rec,
                        *st,
                        *lk,
                    ),
                decreases n - i,
            {
                let ghost pre = out@;
                let ghost pre_esc = esc;
                let c = fmt.get_char(i);
                if c == '%' {
                    if esc {
                        out.push('%');
                        esc = false;
                        proof {
                            assert(pre + (seq!['%'] + render_file_chars(
                                fmt@,
                                i as int + 1,
                                false,
                                *rec,
                                *st,
                                *lk,
                            )) =~= out@ + render_file_chars(
                                fmt@,
                                i as int + 1,
                                false,
                                *rec,
                                *st,
                                *lk,
                            ));
                        }
                    } else {
                        esc = true;
                    }
                } else if esc {
                    let mut d = eval_file_directive(c, rec, st, lk);
                    let ghost dv = d@;
                    out.append(&mut d);
                    esc = false;
                    proof {
                        assert(pre + (dv + render_file_chars(
                            fmt@,
                            i as int + 1,
                            false,
                            *rec,
                            *st,
                            *lk,
                        )) =~= out@ + render_file_chars(fmt@, i as int + 1, false, *rec, *st, *lk));
                    }
                } else {
                    out.push(c);
                    proof {
                        assert(pre + (seq![c] + render_file_chars(
                            fmt@,
                            i as int + 1,
                            false,
                            *rec,
                            *st,
                            *lk,
                        )) =~= out@ + render_file_chars(fmt@, i as int + 1, false, *rec, *st, *lk));
                    }
                }
                i = i + 1;
            }
            out
        },
        Outcome::FilesystemInfo(_) => {
            proof {
                assert(false);
            }
            Vec::new()
        },
    }
}

/// The custom-format text of the file records from position `i` on,
/// with the single batch-level newline after the last one.
pub open spec fn custom_file_output(
    fmt: Seq<char>,
    recs: Seq<FileStat>,
    lks: Seq<Lookups>,
    i: int,
) -> Seq<char>
    decreases recs.len() - i,
{
    if i < 0 || i >= recs.len() {
        seq!['\n']
    } else {
        custom_file_record(fmt, recs[i], lks[i]) + custom_file_output(fmt, recs, lks, i + 1)
    }
}

/// Directive escaping: over every live file record and every lookup
/// text, the directive string `100%%` renders as exactly the literal
/// text `100%` and the single batch-level newline — the `%%` pair
/// produces one literal percent and no directive substitution. (A
/// failed record renders as its diagnostic line instead.)
pub proof fn lemma_escape_double_percent(rec: FileStat, lk: Lookups)
    requires
        rec.outcome is FileInfo,
    ensures
        custom_file_output("100%%"@, seq![rec], seq![lk], 0) == "100%"@ + seq!['\n'],
{
    reveal_strlit("100%%");
    reveal_strlit("100%");
    let fmt = "100%%"@;
    let st = rec.outcome->FileInfo_0;
    assert(render_file_chars(fmt, 5, false, rec, st, lk) =~= Seq::<char>::empty());
    assert(render_file_chars(fmt, 4, true, rec, st, lk) =~= seq!['%']);
    assert(render_file_chars(fmt, 3, false, rec, st, lk) =~= seq!['%']);
    assert(render_file_chars(fmt, 2, false, rec, st, lk) =~= seq!['0', '%']);
    assert(render_file_chars(fmt, 1, false, rec, st, lk) =~= seq!['0', '0', '%']);
    assert(render_file_chars(fmt, 0, false, rec, st, lk) =~= seq!['1', '0', '0', '%']);
    assert(custom_file_output(fmt, seq![rec], seq![lk], 1) == seq!['\n']);
    assert(custom_file_output(fmt, seq![rec], seq![lk], 0) =~= "100%"@ + seq!['\n']);
}

/// Graceful degradation: over every live file record and every lookup
/// text, a directive letter outside the file table — `Q` stands for
/// them — renders as the letter itself and the single batch-level
/// newline, never as an error. (A failed record renders as its
/// diagnostic line instead.)
pub proof fn lemma_unknown_directive(rec: FileStat, lk: Lookups)
    requires
        rec.outcome is FileInfo,
    ensures
        custom_file_output("%Q"@, seq![rec], seq![lk], 0) == seq!['Q', '\n'],
{
    reveal_strlit("%Q");
    let fmt = "%Q"@;
    let st = rec.outcome->FileInfo_0;
    assert(render_file_chars(fmt, 2, false, rec, st, lk) =~= Seq::<char>::empty());
    assert(file_directive('Q', rec, st, lk) =~= seq!['Q']);
    assert(render_file_chars(fmt, 1, true, rec, st, lk) =~= seq!['Q']);
    assert(render_file_chars(fmt, 0, false, rec, st, lk) =~= seq!['Q']);
    assert(custom_file_output(fmt, seq![rec], seq![lk], 1) == seq!['\n']);
    assert(custom_file_output(fmt, seq![rec], seq![lk], 0) =~= seq!['Q', '\n']);
}

/// What one filesystem directive letter stands for: the extracted
/// field of the record, or the letter itself where the table has no
/// entry.
pub open spec fn fs_directive(c: char, rec: FileStat, st: RawStatfs) -> Seq<char> {
    if c == 'a' {
        dec_digits(st.f_bavail as nat)
    } else if c == 'b' {
        dec_digits(st.f_blocks as nat)
    } else if c == 'c' {
        dec_digits(st.f_files as nat)
    } else if c == 'd' {
        dec_digits(st.f_ffree as nat)
    } else if c == 'f' {
        dec_digits(st.f_bfree as nat)
    } else if c == 'i' {
        hex_digits(st.f_fsid as nat)
    } else if c == 'n' {
        rec.filename@
    } else if c == 's' {
        dec_int(st.f_bsize as int)
    } else if c == 'S' {
        dec_int(st.f_frsize as int)
    } else if c == 't' {
        hex_digits((st.f_type as u64) as nat)
    } else if c == 'T' {
        dec_int(st.f_type as int)
    } else {
        seq![c]
    }
}

/// Renders one filesystem directive letter.
fn eval_fs_directive(c: char, rec: &FileStat, st: &RawStatfs) -> (r: Vec<char>)
    ensures
        r@ == fs_directive(c, *rec, *st),
{
    if c == 'a' {
        u64_dec_chars(st.f_bavail)
    } else if c == 'b' {
        u64_dec_chars(st.f_blocks)
    } else if c == 'c' {
        u64_dec_chars(st.f_files)
    } else if c == 'd' {
        u64_dec_chars(st.f_ffree)
    } else if c == 'f' {
        u64_dec_chars(st.f_bfree)
    } else if c == 'i' {
        u64_hex_chars(st.f_fsid)
    } else if c == 'n' {
        str_to_chars(rec.filename.as_str())
    } else if c == 's' {
        i64_dec_chars(st.f_bsize)
    } else if c == 'S' {
        i64_dec_chars(st.f_frsize)
    } else if c == 't' {
        u64_hex_chars(st.f_type as u64)
    } else if c == 'T' {
        i64_dec_chars(st.f_type)
    } else {
        let mut v: Vec<char> = Vec::new();
        v.push(c);
        proof {
            assert(v@ =~= seq![c]);
        }
        v
    }
}

/// One pass of the directive interpreter over the format text for a
/// filesystem record, with the same escape rules as for files.
pub open spec fn render_fs_chars(
    fmt: Seq<char>,
    i: int,
    esc: bool,
    rec: FileStat,
    st: RawStatfs,
) -> Seq<char>
    decreases fmt.len() - i,
{
    if i < 0 || i >= fmt.len() {
        Seq::empty()
    } else {
        let c = fmt[i];
        if c == '%' {
            if esc {
                seq!['%'] + render_fs_chars(fmt, i + 1, false, rec, st)
            } else {
                render_fs_chars(fmt, i + 1, true, rec, st)
            }
        } else if esc {
            fs_directive(c, rec, st) + render_fs_chars(fmt, i + 1, false, rec, st)
        } else {
            seq![c] + render_fs_chars(fmt, i + 1, false, rec, st)
        }
    }
}

/// The custom-format text of one filesystem record, a failed record
/// as its diagnostic line.
pub open spec fn custom_fs_record(fmt: Seq<char>, rec: FileStat) -> Seq<char> {
    match rec.outcome {
        Outcome::Failure(e) => cannot_stat_line(rec.filename@, e@),
        Outcome::FilesystemInfo(st) => render_fs_chars(fmt, 0, false, rec, st),
        Outcome::FileInfo(_) => Seq::empty(),
    }
}

/// Renders the custom-format text of one filesystem record.
fn custom_fs_line(fmt: &str, rec: &FileStat) -> (r: Vec<char>)
    requires
        !(rec.outcome is FileInfo),
    ensures
        r@ == custom_fs_record(fmt@, *rec),
{
    match &rec.outcome {
        Outcome::Failure(_) => cannot_stat_chars(rec),
        Outcome::FilesystemInfo(st) => {
            let n = fmt.unicode_len();
            let mut out: Vec<char> = Vec::new();
            let mut esc: bool = false;
            let mut i: usize = 0;
            while i < n
                invariant
                    i <= n,
                    n == fmt@.len(),
                    render_fs_chars(fmt@, 0, false, *rec, *st) == out@ + render_fs_chars(
                        fmt@,
                        i as int,
                        esc,
                        *rec,
                        *st,
                    ),
                decreases n - i,
            {
                let ghost pre = out@;
                let c = fmt.get_char(i);
                if c == '%' {
                    if esc {
                        out.push('%');
                        esc = false;
                        proof {
                            assert(pre + (seq!['%'] + render_fs_chars(
                                fmt@,
                                i as int + 1,
                                false,
                                *rec,
                                *st,
                            )) =~= out@ + render_fs_chars(fmt@, i as int + 1, false, *rec, *st));
                        }
                    } else {
                        esc = true;
                    }
                } else if esc {
                    let mut d = eval_fs_directive(c, rec, st);
                    let ghost dv = d@;
                    out.append(&mut d);
                    esc = false;
                    proof {
                        assert(pre + (dv + render_fs_chars(fmt@, i as int + 1, false, *rec, *st))
                            =~= out@ + render_fs_chars(fmt@, i as int + 1, false, *rec, *st));
                    }
                } else {
                    out.push(c);
                    proof {
                        assert(pre + (seq![c] + render_fs_chars(fmt@, i as int + 1, false, *rec, *st))
                            =~= out@ + render_fs_chars(fmt@, i as int + 1, false, *rec, *st));
                    }
                }
                i = i + 1;
            }
            out
        },
        Outcome::FileInfo(_) => {
            proof {
                assert(false);
            }
            Vec::new()
        },
    }
}

/// The custom-format text of the filesystem records from position `i`
/// on, with the single batch-level newline after the last one.
pub open spec fn custom_fs_records(fmt: Seq<char>, recs: Seq<FileStat>, i: int) -> Seq<char>
    decreases recs.len() - i,
{
    if i < 0 || i >= recs.len() {
        seq!['\n']
    } else {
        custom_fs_record(fmt, recs[i]) + custom_fs_records(fmt, recs, i + 1)
    }
}

/// The labeled default layout of one file record: name (with the link
/// target after an arrow), sizes, device and inode columns, the
/// permission views, and the three timestamps with the given zone
/// offset; a failed record renders as its diagnostic line.
pub open spec fn normal_file_record(rec: FileStat, lk: Lookups, offset: Seq<char>) -> Seq<char> {
    match rec.outcome {
        Outcome::Failure(e) => cannot_stat_line(rec.filename@, e@),
        Outcome::FileInfo(st) => normal_file_head(rec) + normal_file_size_line(st)
            + normal_file_device_line(st) + normal_file_access_line(st, lk) + normal_file_times(
            st,
            lk,
            offset,
        ),
        Outcome::FilesystemInfo(_) => Seq::empty(),
    }
}

/// The name line of the default layout.
pub open spec fn normal_file_head(rec: FileStat) -> Seq<char> {
    if rec.blinker {
        "  File: "@ + rec.filename@ + " -> "@ + rec.oriname@ + seq!['\n']
    } else {
        "  File: "@ + rec.filename@ + seq!['\n']
    }
}

/// The size/blocks/IO-block line of the default layout.
pub open spec fn normal_file_size_line(st: RawStat) -> Seq<char> {
    "  Size: "@ + pad_right(dec_int(st.st_size as int), 16) + "Blocks: "@ + pad_right(
        dec_int(st.st_blocks as int),
        11,
    ) + "IO Block: "@ + pad_right(dec_int(st.st_blksize as int), 7) + long_name(
        file_type_of(st.st_mode),
    ) + seq!['\n']
}

/// The device/inode/links line of the default layout.
pub open spec fn normal_file_device_line(st: RawStat) -> Seq<char> {
    "Device: "@ + pad_right(
        hex_digits(st.st_dev as nat) + "h/"@ + dec_digits(st.st_dev as nat) + seq!['d'],
        16,
    ) + "Inode: "@ + pad_right(dec_digits(st.st_ino as nat), 12) + "Links: "@ + dec_digits(
        st.st_nlink as nat,
    ) + seq!['\n']
}

/// The permissions/owner/group line of the default layout.
pub open spec fn normal_file_access_line(st: RawStat, lk: Lookups) -> Seq<char> {
    "Access: ("@ + octal_digits(st.st_mode) + seq!['/'] + seq![
        short_char(file_type_of(st.st_mode)),
    ] + symbolic_chars(st.st_mode) + ")  Uid: ("@ + pad_left(dec_digits(st.st_uid as nat), 5)
        + seq!['/'] + pad_left(lk.user_name@, 8) + ")   Gid: ("@ + pad_left(
        dec_digits(st.st_gid as nat),
        5,
    ) + seq!['/'] + pad_left(lk.group_name@, 8) + ")\n"@
}

/// The three timestamp lines and the birth placeholder of the default
/// layout.
pub open spec fn normal_file_times(st: RawStat, lk: Lookups, offset: Seq<char>) -> Seq<char> {
    "Access: "@ + lk.atime_str@ + seq!['.'] + dec_int(st.st_atime_nsec as int) + seq![' ']
        + offset + seq!['\n'] + "Modify: "@ + lk.mtime_str@ + seq!['.'] + dec_int(
        st.st_mtime_nsec as int,
    ) + seq![' '] + offset + seq!['\n'] + "Change: "@ + lk.ctime_str@ + seq!['.'] + dec_int(
        st.st_ctime_nsec as int,
    ) + seq![' '] + offset + seq!['\n'] + "Birth: -\n"@
}

/// Renders the default layout of one file record.
fn normal_file_block(rec: &FileStat, lk: &Lookups, offset: &str) -> (r: Vec<char>)
    requires
        !(rec.outcome is FilesystemInfo),
    ensures
        r@ == normal_file_record(*rec, *lk, offset@),
{
    match &rec.outcome {
        Outcome::Failure(_) => cannot_stat_chars(rec),
        Outcome::FileInfo(st) => {
            let mut v = head_line_chars(rec);
            let mut f = size_line_chars(st);
            v.append(&mut f);
            let mut f = device_line_chars(st);
            v.append(&mut f);
            let mut f = access_line_chars(st, lk);
            v.append(&mut f);
            let mut f = times_chars(st, lk, offset);
            v.append(&mut f);
            proof {
                assert(v@ =~= normal_file_record(*rec, *lk, offset@));
            }
            v
        },
        Outcome::FilesystemInfo(_) => {
            proof {
                assert(false);
            }
            Vec::new()
        },
    }
}

/// Renders the name line of the default layout.
fn head_line_chars(rec: &FileStat) -> (r: Vec<char>)
    ensures
        r@ == normal_file_head(*rec),
{
    let mut v: Vec<char> = Vec::new();
    append_str(&mut v, "  File: ");
    append_str(&mut v, rec.filename.as_str());
    if rec.blinker {
        append_str(&mut v, " -> ");
        append_str(&mut v, rec.oriname.as_str());
    }
    v.push('\n');
    proof {
        assert(v@ =~= normal_file_head(*rec));
    }
    v
}

/// Renders the size/blocks/IO-block line of the default layout.
fn size_line_chars(st: &RawStat) -> (r: Vec<char>)
    ensures
        r@ == normal_file_size_line(*st),
{
    let mut v: Vec<char> = Vec::new();
    append_str(&mut v, "  Size: ");
    let mut f = i64_dec_chars(st.st_size);
    pad_right_chars(&mut f, 16);
    v.append(&mut f);
    append_str(&mut v, "Blocks: ");
    let mut f = i64_dec_chars(st.st_blocks);
    pad_right_chars(&mut f, 11);
    v.append(&mut f);
    append_str(&mut v, "IO Block: ");
    let mut f = i64_dec_chars(st.st_blksize);
    pad_right_chars(&mut f, 7);
    v.append(&mut f);
    append_str(&mut v, FileType::get_file_type(st.st_mode).display_name());
    v.push('\n');
    proof {
        assert(v@ =~= normal_file_size_line(*st));
    }
    v
}

/// Renders the device/inode/links line of the default layout.
fn device_line_chars(st: &RawStat) -> (r: Vec<char>)
    ensures
        r@ == normal_file_device_line(*st),
{
    let mut v: Vec<char> = Vec::new();
    append_str(&mut v, "Device: ");
    let mut f = u64_hex_chars(st.st_dev);
    append_str(&mut f, "h/");
    let mut d = u64_dec_chars(st.st_dev);
    f.append(&mut d);
    f.push('d');
    proof {
        assert(f@ =~= hex_digits(st.st_dev as nat) + "h/"@ + dec_digits(st.st_dev as nat)
            + seq!['d']);
    }
    pad_right_chars(&mut f, 16);
    v.append(&mut f);
    append_str(&mut v, "Inode: ");
    let mut f = u64_dec_chars(st.st_ino);
    pad_right_chars(&mut f, 12);
    v.append(&mut f);
    append_str(&mut v, "Links: ");
    let mut f = u64_dec_chars(st.st_nlink);
    v.append(&mut f);
    v.push('\n');
    proof {
        assert(v@ =~= normal_file_device_line(*st));
    }
    v
}

/// Renders the permissions/owner/group line of the default layout.
fn access_line_chars(st: &RawStat, lk: &Lookups) -> (r: Vec<char>)
    ensures
        r@ == normal_file_access_line(*st, *lk),
{
    let mut v: Vec<char> = Vec::new();
    append_str(&mut v, "Access: (");
    let mut f = octal_chars(st.st_mode);
    v.append(&mut f);
    v.push('/');
    v.push(FileType::get_file_type(st.st_mode).output_short());
    let mut f = symbolic_perm_chars(st.st_mode);
    v.append(&mut f);
    append_str(&mut v, ")  Uid: (");
    let f = u64_dec_chars(st.st_uid as u64);
    let mut f = pad_left_chars(f, 5);
    v.append(&mut f);
    v.push('/');
    let f = str_to_chars(lk.user_name.as_str());
    let mut f = pad_left_chars(f, 8);
    v.append(&mut f);
    append_str(&mut v, ")   Gid: (");
    let f = u64_dec_chars(st.st_gid as u64);
    let mut f = pad_left_chars(f, 5);
    v.append(&mut f);
    v.push('/');
    let f = str_to_chars(lk.group_name.as_str());
    let mut f = pad_left_chars(f, 8);
    v.append(&mut f);
    append_str(&mut v, ")\n");
    proof {
        assert(v@ =~= normal_file_access_line(*st, *lk));
    }
    v
}

/// Renders the timestamp lines and the birth placeholder of the
/// default layout.
fn times_chars(st: &RawStat, lk: &Lookups, offset: &str) -> (r: Vec<char>)
    ensures
        r@ == normal_file_times(*st, *lk, offset@),
{
    let mut v: Vec<char> = Vec::new();
    append_str(&mut v, "Access: ");
    append_str(&mut v, lk.atime_str.as_str());
    v.push('.');
    let mut f = i64_dec_chars(st.st_atime_nsec);
    v.append(&mut f);
    v.push(' ');
    append_str(&mut v, offset);
    v.push('\n');
    append_str(&mut v, "Modify: ");
    append_str(&mut v, lk.mtime_str.as_str());
    v.push('.');
    let mut f = i64_dec_chars(st.st_mtime_nsec);
    v.append(&mut f);
    v.push(' ');
    append_str(&mut v, offset);
    v.push('\n');
    append_str(&mut v, "Change: ");
    append_str(&mut v, lk.ctime_str.as_str());
    v.push('.');
    let mut f = i64_dec_chars(st.st_ctime_nsec);
    v.append(&mut f);
    v.push(' ');
    append_str(&mut v, offset);
    v.push('\n');
    append_str(&mut v, "Birth: -\n");
    proof {
        assert(v@ =~= normal_file_times(*st, *lk, offset@));
    }
    v
}

/// The default layout of the file records from position `i` on, with
/// the single batch-level newline after the last one.
pub open spec fn normal_file_output(
    recs: Seq<FileStat>,
    lks: Seq<Lookups>,
    offset: Seq<char>,
    i: int,
) -> Seq<char>
    decreases recs.len() - i,
{
    if i < 0 || i >= recs.len() {
        seq!['\n']
    } else {
        normal_file_record(recs[i], lks[i], offset) + normal_file_output(recs, lks, offset, i + 1)
    }
}

/// The labeled default layout of one filesystem record; a failed
/// record renders as its diagnostic line.
pub open spec fn normal_fs_record(rec: FileStat) -> Seq<char> {
    match rec.outcome {
        Outcome::Failure(e) => cannot_stat_line(rec.filename@, e@),
        Outcome::FilesystemInfo(st) => "  File: \""@ + rec.filename@ + "\"\n"@ + "    ID: "@
            + hex_digits(st.f_fsid as nat) + " Namelen: "@ + pad_right(
            dec_int(st.f_namelen as int),
            8,
        ) + "Type: ext2/ext3\n"@ + "Block size: "@ + pad_right(dec_int(st.f_frsize as int), 11)
            + "Fundamental block size: "@ + dec_int(st.f_bsize as int) + seq!['\n']
            + "Blocks: Total: "@ + pad_right(dec_digits(st.f_blocks as nat), 11) + "Free: "@
            + pad_right(dec_digits(st.f_bfree as nat), 11) + "Available: "@ + dec_digits(
            st.f_bavail as nat,
        ) + seq!['\n'] + "Inodes: Total: "@ + pad_right(dec_digits(st.f_files as nat), 11)
            + "Free: "@ + dec_digits(st.f_ffree as nat) + seq!['\n'],
        Outcome::FileInfo(_) => Seq::empty(),
    }
}

/// Renders the default layout of one filesystem record.
fn normal_fs_block(rec: &FileStat) -> (r: Vec<char>)
    requires
        !(rec.outcome is FileInfo),
    ensures
        r@ == normal_fs_record(*rec),
{
    match &rec.outcome {
        Outcome::Failure(_) => cannot_stat_chars(rec),
        Outcome::FilesystemInfo(st) => {
            let mut v: Vec<char> = Vec::new();
            append_str(&mut v, "  File: \"");
            append_str(&mut v, rec.filename.as_str());
            append_str(&mut v, "\"\n");
            append_str(&mut v, "    ID: ");
            let mut f = u64_hex_chars(st.f_fsid);
            v.append(&mut f);
            append_str(&mut v, " Namelen: ");
            let mut f = i64_dec_chars(st.f_namelen);
            pad_right_chars(&mut f, 8);
            v.append(&mut f);
            append_str(&mut v, "Type: ext2/ext3\n");
            append_str(&mut v, "Block size: ");
            let mut f = i64_dec_chars(st.f_frsize);
            pad_right_chars(&mut f, 11);
            v.append(&mut f);
            append_str(&mut v, "Fundamental block size: ");
            let mut f = i64_dec_chars(st.f_bsize);
            v.append(&mut f);
            v.push('\n');
            append_str(&mut v, "Blocks: Total: ");
            let mut f = u64_dec_chars(st.f_blocks);
            pad_right_chars(&mut f, 11);
            v.append(&mut f);
            append_str(&mut v, "Free: ");
            let mut f = u64_dec_chars(st.f_bfree);
            pad_right_chars(&mut f, 11);
            v.append(&mut f);
            append_str(&mut v, "Available: ");
            let mut f = u64_dec_chars(st.f_bavail);
            v.append(&mut f);
            v.push('\n');
            append_str(&mut v, "Inodes: Total: ");
            let mut f = u64_dec_chars(st.f_files);
            pad_right_chars(&mut f, 11);
            v.append(&mut f);
            append_str(&mut v, "Free: ");
            let mut f = u64_dec_chars(st.f_ffree);
            v.append(&mut f);
            v.push('\n');
            proof {
                assert(v@ =~= normal_fs_record(*rec));
            }
            v
        },
        Outcome::FileInfo(_) => {
            proof {
                assert(false);
            }
            Vec::new()
        },
    }
}

/// The default layout of the filesystem records from position `i` on,
/// with the single batch-level newline after the last one.
pub open spec fn normal_fs_output(recs: Seq<FileStat>, i: int) -> Seq<char>
    decreases recs.len() - i,
{
    if i < 0 || i >= recs.len() {
        seq!['\n']
    } else {
        normal_fs_record(recs[i]) + normal_fs_output(recs, i + 1)
    }
}

/// The diagnostic line of one record whose query failed; rendering it
/// in place of the record's fields is what keeps one bad path from
/// stopping the batch.
pub open spec fn cannot_stat_line(name: Seq<char>, err: Seq<char>) -> Seq<char> {
    "stat: cannot stat '"@ + name + "': "@ + err + seq!['\n']
}

/// Renders the diagnostic line of a failed record.
fn cannot_stat_chars(rec: &FileStat) -> (r: Vec<char>)
    requires
        rec.outcome is Failure,
    ensures
        r@ == cannot_stat_line(rec.filename@, rec.outcome->Failure_0@),
{
    let mut v: Vec<char> = Vec::new();
    append_str(&mut v, "stat: cannot stat '");
    append_str(&mut v, rec.filename.as_str());
    append_str(&mut v, "': ");
    match &rec.outcome {
        Outcome::Failure(e) => append_str(&mut v, e.as_str()),
        _ => {},
    }
    v.push('\n');
    proof {
        assert(v@ =~= cannot_stat_line(rec.filename@, rec.outcome->Failure_0@));
    }
    v
}

/// The terse line of one file record: every field in one
/// space-separated row, a failed record as its diagnostic line.
pub open spec fn terse_file_record(rec: FileStat) -> Seq<char> {
    match rec.outcome {
        Outcome::Failure(e) => cannot_stat_line(rec.filename@, e@),
        Outcome::FileInfo(st) => rec.filename@ + seq![' '] + dec_int(st.st_size as int) + seq![' ']
            + dec_int(st.st_blocks as int) + seq![' '] + hex_digits(st.st_mode as nat) + seq![' ']
            + dec_digits(st.st_uid as nat) + seq![' '] + dec_digits(st.st_gid as nat) + seq![' ']
            + hex_digits(st.st_dev as nat) + seq![' '] + dec_digits(st.st_ino as nat) + seq![' ']
            + dec_digits(st.st_nlink as nat) + seq![' ', '0', ' ', '0', ' '] + dec_int(
            st.st_atime as int,
        ) + seq![' '] + dec_int(st.st_mtime as int) + seq![' '] + dec_int(st.st_ctime as int)
            + seq![' ', '0', ' '] + dec_int(st.st_blksize as int) + seq!['\n'],
        Outcome::FilesystemInfo(_) => Seq::empty(),
    }
}

/// Renders the terse line of one file record.
fn terse_file_line(rec: &FileStat) -> (r: Vec<char>)
    requires
        !(rec.outcome is FilesystemInfo),
    ensures
        r@ == terse_file_record(*rec),
{
    match &rec.outcome {
        Outcome::Failure(_) => cannot_stat_chars(rec),
        Outcome::FileInfo(st) => {
            let mut v = str_to_chars(rec.filename.as_str());
            v.push(' ');
            let mut p = i64_dec_chars(st.st_size);
            v.append(&mut p);
            v.push(' ');
            let mut p = i64_dec_chars(st.st_blocks);
            v.append(&mut p);
            v.push(' ');
            let mut p = u64_hex_chars(st.st_mode as u64);
            v.append(&mut p);
            v.push(' ');
            let mut p = u64_dec_chars(st.st_uid as u64);
            v.append(&mut p);
            v.push(' ');
            let mut p = u64_dec_chars(st.st_gid as u64);
            v.append(&mut p);
            v.push(' ');
            let mut p = u64_hex_chars(st.st_dev);
            v.append(&mut p);
            v.push(' ');
            let mut p = u64_dec_chars(st.st_ino);
            v.append(&mut p);
            v.push(' ');
            let mut p = u64_dec_chars(st.st_nlink);
            v.append(&mut p);
            append_str(&mut v, " 0 0 ");
            let mut p = i64_dec_chars(st.st_atime);
            v.append(&mut p);
            v.push(' ');
            let mut p = i64_dec_chars(st.st_mtime);
            v.append(&mut p);
            v.push(' ');
            let mut p = i64_dec_chars(st.st_ctime);
            v.append(&mut p);
            append_str(&mut v, " 0 ");
            let mut p = i64_dec_chars(st.st_blksize);
            v.append(&mut p);
            v.push('\n');
            proof {
                assert(" 0 0 "@ =~= seq![' ', '0', ' ', '0', ' ']) by {
                    reveal_strlit(" 0 0 ");
                }
                assert(" 0 "@ =~= seq![' ', '0', ' ']) by {
                    reveal_strlit(" 0 ");
                }
                assert(v@ =~= terse_file_record(*rec));
            }
            v
        },
        Outcome::FilesystemInfo(_) => {
            proof {
                assert(false);
            }
            Vec::new()
        },
    }
}

/// The terse lines of the file records from position `i` on.
pub open spec fn terse_file_output(recs: Seq<FileStat>, i: int) -> Seq<char>
    decreases recs.len() - i,
{
    if i < 0 || i >= recs.len() {
        Seq::empty()
    } else {
        terse_file_record(recs[i]) + terse_file_output(recs, i + 1)
    }
}

/// The terse line of one filesystem record, a failed record as its
/// diagnostic line.
pub open spec fn terse_fs_record(rec: FileStat) -> Seq<char> {
    match rec.outcome {
        Outcome::Failure(e) => cannot_stat_line(rec.filename@, e@),
        Outcome::FilesystemInfo(st) => rec.filename@ + seq![' ', ' '] + hex_digits(
            st.f_fsid as nat,
        ) + seq![' '] + dec_int(st.f_namelen as int) + seq![' '] + dec_digits(st.f_bavail as nat)
            + seq![' '] + dec_int(st.f_bsize as int) + seq![' '] + dec_int(st.f_frsize as int)
            + seq![' '] + dec_digits(st.f_ffree as nat) + seq![' '] + dec_digits(st.f_bfree as nat)
            + seq![' '] + dec_int(st.f_type as int) + seq!['\n'],
        Outcome::FileInfo(_) => Seq::empty(),
    }
}

/// Renders the terse line of one filesystem record.
fn terse_fs_line(rec: &FileStat) -> (r: Vec<char>)
    requires
        !(rec.outcome is FileInfo),
    ensures
        r@ == terse_fs_record(*rec),
{
    match &rec.outcome {
        Outcome::Failure(_) => cannot_stat_chars(rec),
        Outcome::FilesystemInfo(st) => {
            let mut v = str_to_chars(rec.filename.as_str());
            append_str(&mut v, "  ");
            let mut p = u64_hex_chars(st.f_fsid);
            v.append(&mut p);
            v.push(' ');
            let mut p = i64_dec_chars(st.f_namelen);
            v.append(&mut p);
            v.push(' ');
            let mut p = u64_dec_chars(st.f_bavail);
            v.append(&mut p);
            v.push(' ');
            let mut p = i64_dec_chars(st.f_bsize);
            v.append(&mut p);
            v.push(' ');
            let mut p = i64_dec_chars(st.f_frsize);
            v.append(&mut p);
            v.push(' ');
            let mut p = u64_dec_chars(st.f_ffree);
            v.append(&mut p);
            v.push(' ');
            let mut p = u64_dec_chars(st.f_bfree);
            v.append(&mut p);
            v.push(' ');
            let mut p = i64_dec_chars(st.f_type);
            v.append(&mut p);
            v.push('\n');
            proof {
                assert("  "@ =~= seq![' ', ' ']) by {
                    reveal_strlit("  ");
                }
                assert(v@ =~= terse_fs_record(*rec));
            }
            v
        },
        Outcome::FileInfo(_) => {
            proof {
                assert(false);
            }
            Vec::new()
        },
    }
}

/// The terse lines of the filesystem records from position `i` on.
pub open spec fn terse_fs_output(recs: Seq<FileStat>, i: int) -> Seq<char>
    decreases recs.len() - i,
{
    if i < 0 || i >= recs.len() {
        Seq::empty()
    } else {
        terse_fs_record(recs[i]) + terse_fs_output(recs, i + 1)
    }
}

/// The directive-letter reference that a more-help request appends
/// after the normal output.
pub const MORE_HELP_TEXT: &'static str = "The helper for format mode ------ or you can just use 'rstat --help'
The valid format sequences for files (without --file-system):

    %a   access rights in octal (note '#' and '0' printf flags)
    %A   access rights in human readable form
    %b   number of blocks allocated (see %B)
    %B   the size in bytes of each block reported by %b
    %C   SELinux security context string
    %d   device number in decimal
    %D   device number in hex
    %f   raw mode in hex
    %F   file type
    %g   group ID of owner
    %G   group name of owner
    %h   number of hard links
    %i   inode number
    %m   mount point
    %n   file name
    %N   quoted file name with dereference if symbolic link
    %o   optimal I/O transfer size hint
    %s   total size, in bytes
    %t   major device type in hex, for character/block device special files
    %T   minor device type in hex, for character/block device special files
    %u   user ID of owner
    %U   user name of owner
    %w   time of file birth, human-readable; - if unknown
    %W   time of file birth, seconds since Epoch; 0 if unknown
    %x   time of last access, human-readable
    %X   time of last access, seconds since Epoch
    %y   time of last data modification, human-readable
    %Y   time of last data modification, seconds since Epoch
    %z   time of last status change, human-readable
    %Z   time of last status change, seconds since Epoch

  Valid format sequences for file systems:

    %a   free blocks available to non-superuser
    %b   total data blocks in file system
    %c   total file nodes in file system
    %d   free file nodes in file system
    %f   free blocks in file system
    %i   file system ID in hex
    %l   maximum length of filenames
    %n   file name
    %s   block size (for faster transfers)
    %S   fundamental block size (for block counts)
    %t   file system type in hex
    %T   file system type in human readable form";

/// The characters of the directive-letter reference.
pub open spec fn more_help_chars() -> Seq<char> {
    MORE_HELP_TEXT@
}

/// The directive-letter reference table, static text with no
/// lifecycle.
pub fn output_more_help() -> (r: &'static str)
    ensures
        r@ == more_help_chars(),
{
    MORE_HELP_TEXT
}

/// The body of one batch under an option set: the terse, custom or
/// default layout, for files or filesystems as selected.
pub open spec fn spec_output_body(
    o: OptState,
    recs: Seq<FileStat>,
    lks: Seq<Lookups>,
    offset: Seq<char>,
) -> Seq<char> {
    if o.bterse {
        if o.bfilesystem {
            terse_fs_output(recs, 0)
        } else {
            terse_file_output(recs, 0)
        }
    } else if o.bfilter {
        if o.bfilesystem {
            custom_fs_records(o.output_inf, recs, 0)
        } else {
            custom_file_output(o.output_inf, recs, lks, 0)
        }
    } else {
        if o.bfilesystem {
            normal_fs_output(recs, 0)
        } else {
            normal_file_output(recs, lks, offset, 0)
        }
    }
}

/// The whole text of one batch under an option set: the selected
/// layout's body, and the directive reference with a closing newline
/// where more help was asked for.
pub open spec fn spec_output(
    o: OptState,
    recs: Seq<FileStat>,
    lks: Seq<Lookups>,
    offset: Seq<char>,
) -> Seq<char> {
    if o.bmhelper {
        spec_output_body(o, recs, lks, offset) + more_help_chars() + seq!['\n']
    } else {
        spec_output_body(o, recs, lks, offset)
    }
}

impl OptionSelected {
    /// Evaluates the directive string against every file record in input
    /// order, isolating failures as diagnostic lines, and ends the batch
    /// with one newline.
    pub fn output_with_fileter_file(command: &str, filestat: &Vec<FileStat>, lookups: &Vec<Lookups>)
        -> (r: String)
        requires
            lookups@.len() == filestat@.len(),
            forall|i: int| 0 <= i < filestat@.len() ==> !(filestat@[i].outcome is FilesystemInfo),
        ensures
            r@ == custom_file_output(command@, filestat@, lookups@, 0),
    {
        let n = filestat.len();
        let mut out: Vec<char> = Vec::new();
        let mut i: usize = 0;
        while i < n
            invariant
                i <= n,
                n == filestat@.len(),
                lookups@.len() == filestat@.len(),
                forall|k: int| 0 <= k < filestat@.len() ==> !(filestat@[k].outcome is FilesystemInfo),
                custom_file_output(command@, filestat@, lookups@, 0) == out@ + custom_file_output(
                    command@,
                    filestat@,
                    lookups@,
                    i as int,
                ),
            decreases n - i,
        {
            let ghost pre = out@;
            let mut line = custom_file_line(command, &filestat[i], &lookups[i]);
            let ghost lv = line@;
            out.append(&mut line);
            proof {
                assert(custom_file_output(command@, filestat@, lookups@, i as int) == lv
                    + custom_file_output(command@, filestat@, lookups@, i as int + 1));
                assert(pre + (lv + custom_file_output(command@, filestat@, lookups@, i as int + 1))
                    =~= (pre + lv) + custom_file_output(command@, filestat@, lookups@, i as int + 1));
            }
            i = i + 1;
        }
        out.push('\n');
        proof {
            assert(out@ =~= custom_file_output(command@, filestat@, lookups@, 0));
        }
        chars_to_string(&out)
    }

    /// Evaluates the directive string against every filesystem record
    /// in input order, isolating failures as diagnostic lines, and
    /// ends the batch with one newline.
    pub fn output_with_fileter_filesystem(command: &str, filestat: &Vec<FileStat>) -> (r: String)
        requires
            forall|i: int| 0 <= i < filestat@.len() ==> !(filestat@[i].outcome is FileInfo),
        ensures
            r@ == custom_fs_records(command@, filestat@, 0),
    {
        let n = filestat.len();
        let mut out: Vec<char> = Vec::new();
        let mut i: usize = 0;
        while i < n
            invariant
                i <= n,
                n == filestat@.len(),
                forall|k: int| 0 <= k < filestat@.len() ==> !(filestat@[k].outcome is FileInfo),
                custom_fs_records(command@, filestat@, 0) == out@ + custom_fs_records(
                    command@,
                    filestat@,
                    i as int,
                ),
            decreases n - i,
        {
            let ghost pre = out@;
            let mut line = custom_fs_line(command, &filestat[i]);
            let ghost lv = line@;
            out.append(&mut line);
            proof {
                assert(custom_fs_records(command@, filestat@, i as int) == lv + custom_fs_records(
                    command@,
                    filestat@,
                    i as int + 1,
                ));
                assert(pre + (lv + custom_fs_records(command@, filestat@, i as int + 1)) =~= (pre + lv)
                    + custom_fs_records(command@, filestat@, i as int + 1));
            }
            i = i + 1;
        }
        out.push('\n');
        proof {
            assert(out@ =~= custom_fs_records(command@, filestat@, 0));
        }
        chars_to_string(&out)
    }

    /// Renders every file record in the labeled default layout, failures
    /// as diagnostic lines, in input order; `offset` is the zone offset
    /// text shown after each timestamp.
    #[verifier::rlimit(30)]
    pub fn output_normal_file(filestat: &Vec<FileStat>, lookups: &Vec<Lookups>, offset: &str) -> (r:
        String)
        requires
            lookups@.len() == filestat@.len(),
            forall|i: int| 0 <= i < filestat@.len() ==> !(filestat@[i].outcome is FilesystemInfo),
        ensures
            r@ == normal_file_output(filestat@, lookups@, offset@, 0),
    {
        let n = filestat.len();
        let mut out: Vec<char> = Vec::new();
        let mut i: usize = 0;
        while i < n
            invariant
                i <= n,
                n == filestat@.len(),
                lookups@.len() == filestat@.len(),
                forall|k: int| 0 <= k < filestat@.len() ==> !(filestat@[k].outcome is FilesystemInfo),
                normal_file_output(filestat@, lookups@, offset@, 0) == out@ + normal_file_output(
                    filestat@,
                    lookups@,
                    offset@,
                    i as int,
                ),
            decreases n - i,
        {
            let ghost pre = out@;
            let mut line = normal_file_block(&filestat[i], &lookups[i], offset);
            let ghost lv = line@;
            out.append(&mut line);
            proof {
                assert(normal_file_output(filestat@, lookups@, offset@, i as int) == lv
                    + normal_file_output(filestat@, lookups@, offset@, i as int + 1));
                assert(pre + (lv + normal_file_output(filestat@, lookups@, offset@, i as int + 1)) =~= (
                pre + lv) + normal_file_output(filestat@, lookups@, offset@, i as int + 1));
            }
            i = i + 1;
        }
        out.push('\n');
        proof {
            assert(out@ =~= normal_file_output(filestat@, lookups@, offset@, 0));
        }
        chars_to_string(&out)
    }

    /// Renders every filesystem record in the labeled default layout,
    /// failures as diagnostic lines, in input order.
    pub fn output_normal_filesystem(filestat: &Vec<FileStat>) -> (r: String)
        requires
            forall|i: int| 0 <= i < filestat@.len() ==> !(filestat@[i].outcome is FileInfo),
        ensures
            r@ == normal_fs_output(filestat@, 0),
    {
        let n = filestat.len();
        let mut out: Vec<char> = Vec::new();
        let mut i: usize = 0;
        while i < n
            invariant
                i <= n,
                n == filestat@.len(),
                forall|k: int| 0 <= k < filestat@.len() ==> !(filestat@[k].outcome is FileInfo),
                normal_fs_output(filestat@, 0) == out@ + normal_fs_output(filestat@, i as int),
            decreases n - i,
        {
            let ghost pre = out@;
            let mut line = normal_fs_block(&filestat[i]);
            let ghost lv = line@;
            out.append(&mut line);
            proof {
                assert(normal_fs_output(filestat@, i as int) == lv + normal_fs_output(
                    filestat@,
                    i as int + 1,
                ));
                assert(pre + (lv + normal_fs_output(filestat@, i as int + 1)) =~= (pre + lv)
                    + normal_fs_output(filestat@, i as int + 1));
            }
            i = i + 1;
        }
        out.push('\n');
        proof {
            assert(out@ =~= normal_fs_output(filestat@, 0));
        }
        chars_to_string(&out)
    }

    /// Renders every file record as one terse line, failures as
    /// diagnostic lines, in input order.
    pub fn output_with_terse_file(filestat: &Vec<FileStat>) -> (r: String)
        requires
            forall|i: int| 0 <= i < filestat@.len() ==> !(filestat@[i].outcome is FilesystemInfo),
        ensures
            r@ == terse_file_output(filestat@, 0),
    {
        let n = filestat.len();
        let mut out: Vec<char> = Vec::new();
        let mut i: usize = 0;
        while i < n
            invariant
                i <= n,
                n == filestat@.len(),
                forall|k: int| 0 <= k < filestat@.len() ==> !(filestat@[k].outcome is FilesystemInfo),
                terse_file_output(filestat@, 0) == out@ + terse_file_output(filestat@, i as int),
            decreases n - i,
        {
            let ghost pre = out@;
            let mut line = terse_file_line(&filestat[i]);
            let ghost lv = line@;
            out.append(&mut line);
            proof {
                assert(terse_file_output(filestat@, i as int) == lv + terse_file_output(
                    filestat@,
                    i as int + 1,
                ));
                assert(pre + (lv + terse_file_output(filestat@, i as int + 1)) =~= (pre + lv)
                    + terse_file_output(filestat@, i as int + 1));
            }
            i = i + 1;
        }
        proof {
            assert(out@ + terse_file_output(filestat@, i as int) =~= out@);
        }
        chars_to_string(&out)
    }

    /// Renders every filesystem record as one terse line, failures as
    /// diagnostic lines, in input order.
    pub fn output_with_terse_filesystem(filestat: &Vec<FileStat>) -> (r: String)
        requires
            forall|i: int| 0 <= i < filestat@.len() ==> !(filestat@[i].outcome is FileInfo),
        ensures
            r@ == terse_fs_output(filestat@, 0),
    {
        let n = filestat.len();
        let mut out: Vec<char> = Vec::new();
        let mut i: usize = 0;
        while i < n
            invariant
                i <= n,
                n == filestat@.len(),
                forall|k: int| 0 <= k < filestat@.len() ==> !(filestat@[k].outcome is FileInfo),
                terse_fs_output(filestat@, 0) == out@ + terse_fs_output(filestat@, i as int),
            decreases n - i,
        {
            let ghost pre = out@;
            let mut line = terse_fs_line(&filestat[i]);
            let ghost lv = line@;
            out.append(&mut line);
            proof {
                assert(terse_fs_output(filestat@, i as int) == lv + terse_fs_output(
                    filestat@,
                    i as int + 1,
                ));
                assert(pre + (lv + terse_fs_output(filestat@, i as int + 1)) =~= (pre + lv)
                    + terse_fs_output(filestat@, i as int + 1));
            }
            i = i + 1;
        }
        proof {
            assert(out@ + terse_fs_output(filestat@, i as int) =~= out@);
        }
        chars_to_string(&out)
    }

    /// Whether the selected render modes can stand together: the
    /// terse and custom layouts exclude one another, and a caller
    /// must reject the combination before any query runs.
    pub fn check_options(&self) -> (r: Result<(), StatError>)
        ensures
            r is Err <==> (self.bterse && self.bfilter),
            r matches Err(e) ==> e == StatError::WrongOption,
    {
        if self.bterse && self.bfilter {
            Err(StatError::WrongOption)
        } else {
            Ok(())
        }
    }

    /// Renders one batch of records under this option set: the
    /// mutually exclusive terse and custom modes are rejected before
    /// anything is rendered; otherwise the selected layout runs over
    /// every record in input order, and the directive reference
    /// follows where more help was asked for. The zone offset shown
    /// by the default file layout comes from the machine, so the
    /// text is pinned for every offset text it may report.
    pub fn output(&self, filestat: &Vec<FileStat>, lookups: &Vec<Lookups>) -> (r: Result<
        String,
        StatError,
    >)
        requires
            lookups@.len() == filestat@.len(),
            !self.bfilesystem ==> forall|i: int|
                0 <= i < filestat@.len() ==> !(filestat@[i].outcome is FilesystemInfo),
            self.bfilesystem ==> forall|i: int|
                0 <= i < filestat@.len() ==> !(filestat@[i].outcome is FileInfo),
        ensures
            r is Err <==> (self.bterse && self.bfilter),
            r matches Err(e) ==> e == StatError::WrongOption,
            r matches Ok(s) ==> exists|off: Seq<char>|
                s@ == #[trigger] spec_output(self@, filestat@, lookups@, off),
    {
        if self.bterse && self.bfilter {
            return Err(StatError::WrongOption);
        }
        let ghost offv: Seq<char>;
        let body: String;
        if self.bterse {
            if self.bfilesystem {
                body = Self::output_with_terse_filesystem(filestat);
            } else {
                body = Self::output_with_terse_file(filestat);
            }
            proof {
                offv = Seq::empty();
            }
        } else if self.bfilter {
            if self.bfilesystem {
                body = Self::output_with_fileter_filesystem(self.output_inf.as_str(), filestat);
            } else {
                body = Self::output_with_fileter_file(self.output_inf.as_str(), filestat, lookups);
            }
            proof {
                offv = Seq::empty();
            }
        } else {
            if self.bfilesystem {
                body = Self::output_normal_filesystem(filestat);
                proof {
                    offv = Seq::empty();
                }
            } else {
                let off = local_offset_string();
                body = Self::output_normal_file(filestat, lookups, off.as_str());
                proof {
                    offv = off@;
                }
            }
        }
        proof {
            assert(body@ == spec_output_body(self@, filestat@, lookups@, offv));
        }
        if self.bmhelper {
            let mut out = str_to_chars(body.as_str());
            append_str(&mut out, output_more_help());
            out.push('\n');
            let s = chars_to_string(&out);
            proof {
                assert(s@ =~= spec_output(self@, filestat@, lookups@, offv));
            }
            Ok(s)
        } else {
            proof {
                assert(body@ == spec_output(self@, filestat@, lookups@, offv));
            }
            Ok(body)
        }
    }
}

} // verus!
