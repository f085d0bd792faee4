//! Decoding of the packed mode word: file-type classification and
//! permission bits, with the laws that tie the decoded views back to
//! the raw bits.
use vstd::prelude::*;
use crate::text::{chars_to_string, digit_char, digit_to_char, digit_val, lemma_digit_round_trip};

verus! {

/// Mask of the file-type field inside a mode word.
pub const S_IFMT: u32 = 0o170000;

/// Named pipe (FIFO).
pub const S_IFIFO: u32 = 0o010000;

/// Character device.
pub const S_IFCHR: u32 = 0o020000;

/// Block device.
pub const S_IFBLK: u32 = 0o060000;

/// Directory.
pub const S_IFDIR: u32 = 0o040000;

/// Regular file.
pub const S_IFREG: u32 = 0o100000;

/// Symbolic link.
pub const S_IFLNK: u32 = 0o120000;

/// Socket.
pub const S_IFSOCK: u32 = 0o140000;

/// True when the type field of the mode word marks a symbolic link.
pub fn is_symbolic_link(mode: u32) -> (r: bool)
    ensures
        r == (mode & S_IFMT == S_IFLNK),
{
    mode & S_IFMT == S_IFLNK
}

/// The classification of one mode word: the type field either matches
/// one of the seven canonical type constants or the value is Unknown.
#[derive(Clone, Copy, Debug, PartialEq, Eq, Structural)]
pub enum FileType {
    Block,
    Character,
    Directory,
    Link,
    Regular,
    Socket,
    Pipe,
    Unknown,
}

/// The file type encoded in a mode word.
pub open spec fn file_type_of(mode: u32) -> FileType {
    let cmp = mode & S_IFMT;
    if cmp == S_IFBLK {
        FileType::Block
    } else if cmp == S_IFCHR {
        FileType::Character
    } else if cmp == S_IFDIR {
        FileType::Directory
    } else if cmp == S_IFIFO {
        FileType::Pipe
    } else if cmp == S_IFLNK {
        FileType::Link
    } else if cmp == S_IFREG {
        FileType::Regular
    } else if cmp == S_IFSOCK {
        FileType::Socket
    } else {
        FileType::Unknown
    }
}

/// The one-letter form of a file type, as the mode column of a
/// directory listing shows it.
pub open spec fn short_char(t: FileType) -> char {
    match t {
        FileType::Block => 'b',
        FileType::Character => 'c',
        FileType::Directory => 'd',
        FileType::Link => 'l',
        FileType::Regular => '-',
        FileType::Socket => 's',
        FileType::Pipe => 'p',
        FileType::Unknown => 'r',
    }
}

/// The spelled-out name of a file type.
pub open spec fn long_name(t: FileType) -> Seq<char> {
    match t {
        FileType::Block => "block device"@,
        FileType::Character => "character device"@,
        FileType::Directory => "directory"@,
        FileType::Link => "symbolic link"@,
        FileType::Regular => "regular file"@,
        FileType::Socket => "socket"@,
        FileType::Pipe => "pipe"@,
        FileType::Unknown => "unknow type"@,
    }
}

impl FileType {
    /// Classifies a mode word by masking its type field and matching
    /// the canonical constants; an unmatched pattern is Unknown, never
    /// an error.
    pub fn get_file_type(mode: u32) -> (t: FileType)
        ensures
            t == file_type_of(mode),
    {
        let cmp = mode & S_IFMT;
        if cmp == S_IFBLK {
            FileType::Block
        } else if cmp == S_IFCHR {
            FileType::Character
        } else if cmp == S_IFDIR {
            FileType::Directory
        } else if cmp == S_IFIFO {
            FileType::Pipe
        } else if cmp == S_IFLNK {
            FileType::Link
        } else if cmp == S_IFREG {
            FileType::Regular
        } else if cmp == S_IFSOCK {
            FileType::Socket
        } else {
            FileType::Unknown
        }
    }

    /// The one-letter form of this type.
    pub fn output_short(&self) -> (c: char)
        ensures
            c == short_char(*self),
    {
        match self {
            FileType::Block => 'b',
            FileType::Character => 'c',
            FileType::Directory => 'd',
            FileType::Link => 'l',
            FileType::Regular => '-',
            FileType::Socket => 's',
            FileType::Pipe => 'p',
            FileType::Unknown => 'r',
        }
    }

    /// The spelled-out name of this type.
    pub fn display_name(&self) -> (r: &'static str)
        ensures
            r@ == long_name(*self),
    {
        match self {
            FileType::Block => "block device",
            FileType::Character => "character device",
            FileType::Directory => "directory",
            FileType::Link => "symbolic link",
            FileType::Regular => "regular file",
            FileType::Socket => "socket",
            FileType::Pipe => "pipe",
            FileType::Unknown => "unknow type",
        }
    }
}

/// Exactly one classification matches any mode word: each of the
/// seven named types holds if and only if the masked type field
/// equals its constant, and Unknown holds exactly when none does.
pub proof fn lemma_file_type_exactly_one(mode: u32)
    ensures
        file_type_of(mode) is Block <==> mode & S_IFMT == S_IFBLK,
        file_type_of(mode) is Character <==> mode & S_IFMT == S_IFCHR,
        file_type_of(mode) is Directory <==> mode & S_IFMT == S_IFDIR,
        file_type_of(mode) is Pipe <==> mode & S_IFMT == S_IFIFO,
        file_type_of(mode) is Link <==> mode & S_IFMT == S_IFLNK,
        file_type_of(mode) is Regular <==> mode & S_IFMT == S_IFREG,
        file_type_of(mode) is Socket <==> mode & S_IFMT == S_IFSOCK,
        file_type_of(mode) is Unknown <==> !(mode & S_IFMT == S_IFBLK || mode & S_IFMT == S_IFCHR
            || mode & S_IFMT == S_IFDIR || mode & S_IFMT == S_IFIFO || mode & S_IFMT == S_IFLNK
            || mode & S_IFMT == S_IFREG || mode & S_IFMT == S_IFSOCK),
{
}

/// The three symbolic characters for one permission digit: `r`, `w`
/// and `x` stand in fixed columns, each shown exactly when its bit is
/// set.
pub open spec fn perm_chars(d: u8) -> Seq<char> {
    seq![
        if d & 4 != 0 { 'r' } else { '-' },
        if d & 2 != 0 { 'w' } else { '-' },
        if d & 1 != 0 { 'x' } else { '-' },
    ]
}

/// The permission view of a mode word: one 0–7 digit for each of the
/// owner, group and other classes, and a fourth digit for the special
/// (setuid/setgid/sticky) field.
pub struct FilePermission {
    /// Digit of the owner class, bits 6 to 8.
    pub nowner: i8,
    /// Digit of the group class, bits 3 to 5.
    pub ngroup: i8,
    /// Digit of the other class, bits 0 to 2.
    pub nother: i8,
    /// Digit of the special field, bits 9 to 11.
    pub nspe: i8,
}

/// The four digits of the numeric permission string, in rendering
/// order: special, owner, group, other.
pub open spec fn octal_digits(mode: u32) -> Seq<char> {
    seq![
        digit_char(((mode >> 9) & 7) as nat),
        digit_char(((mode >> 6) & 7) as nat),
        digit_char(((mode >> 3) & 7) as nat),
        digit_char((mode & 7) as nat),
    ]
}

/// The nine symbolic permission characters of a mode word: the owner,
/// group and other triads in that order.
pub open spec fn symbolic_chars(mode: u32) -> Seq<char> {
    perm_chars(((mode >> 6) & 7) as u8) + perm_chars(((mode >> 3) & 7) as u8) + perm_chars(
        (mode & 7) as u8,
    )
}

impl FilePermission {
    /// True when every digit lies in the octal range.
    pub open spec fn wf(&self) -> bool {
        &&& 0 <= self.nowner < 8
        &&& 0 <= self.ngroup < 8
        &&& 0 <= self.nother < 8
        &&& 0 <= self.nspe < 8
    }

    /// Decodes a mode word into its four permission digits, each the
    /// 3-bit field of its class.
    pub fn new(mode: u32) -> (r: FilePermission)
        ensures
            r.nowner == ((mode >> 6) & 7) as i8,
            r.ngroup == ((mode >> 3) & 7) as i8,
            r.nother == (mode & 7) as i8,
            r.nspe == ((mode >> 9) & 7) as i8,
            r.wf(),
    {
        proof {
            assert((mode >> 6) & 7 < 8 && (mode >> 3) & 7 < 8 && mode & 7 < 8 && (mode >> 9) & 7
                < 8) by (bit_vector);
        }
        FilePermission {
            nowner: ((mode >> 6) & 7) as i8,
            ngroup: ((mode >> 3) & 7) as i8,
            nother: (mode & 7) as i8,
            nspe: ((mode >> 9) & 7) as i8,
        }
    }

    /// The 4-character numeric permission string, in the order
    /// special, owner, group, other.
    pub fn output_num(&self) -> (r: String)
        requires
            self.wf(),
        ensures
            r@ == seq![
                digit_char(self.nspe as nat),
                digit_char(self.nowner as nat),
                digit_char(self.ngroup as nat),
                digit_char(self.nother as nat),
            ],
    {
        let mut v: Vec<char> = Vec::new();
        v.push(digit_to_char(self.nspe as u8));
        v.push(digit_to_char(self.nowner as u8));
        v.push(digit_to_char(self.ngroup as u8));
        v.push(digit_to_char(self.nother as u8));
        proof {
            assert(v@ =~= seq![
                digit_char(self.nspe as nat),
                digit_char(self.nowner as nat),
                digit_char(self.ngroup as nat),
                digit_char(self.nother as nat),
            ]);
        }
        chars_to_string(&v)
    }

    /// The 9-character symbolic permission string: the owner, group
    /// and other triads in `rwx` column order.
    pub fn output_char(&self) -> (r: String)
        requires
            self.wf(),
        ensures
            r@ == perm_chars(self.nowner as u8) + perm_chars(self.ngroup as u8) + perm_chars(
                self.nother as u8,
            ),
    {
        let mut v = perm_triad_chars(self.nowner as u8);
        let mut g = perm_triad_chars(self.ngroup as u8);
        let mut o = perm_triad_chars(self.nother as u8);
        v.append(&mut g);
        v.append(&mut o);
        chars_to_string(&v)
    }
}

/// The 4-character numeric permission string of a mode word.
pub fn octal_chars(mode: u32) -> (r: Vec<char>)
    ensures
        r@ == octal_digits(mode),
{
    proof {
        assert((mode >> 6) & 7 < 8 && (mode >> 3) & 7 < 8 && mode & 7 < 8 && (mode >> 9) & 7 < 8)
            by (bit_vector);
    }
    let mut v: Vec<char> = Vec::new();
    v.push(digit_to_char(((mode >> 9) & 7) as u8));
    v.push(digit_to_char(((mode >> 6) & 7) as u8));
    v.push(digit_to_char(((mode >> 3) & 7) as u8));
    v.push(digit_to_char((mode & 7) as u8));
    proof {
        assert(v@ =~= octal_digits(mode));
    }
    v
}

/// The 9-character symbolic permission string of a mode word.
pub fn symbolic_perm_chars(mode: u32) -> (r: Vec<char>)
    ensures
        r@ == symbolic_chars(mode),
{
    proof {
        assert((mode >> 6) & 7 < 8 && (mode >> 3) & 7 < 8 && mode & 7 < 8) by (bit_vector);
    }
    let mut v = perm_triad_chars(((mode >> 6) & 7) as u8);
    let mut g = perm_triad_chars(((mode >> 3) & 7) as u8);
    let mut o = perm_triad_chars((mode & 7) as u8);
    v.append(&mut g);
    v.append(&mut o);
    v
}

/// The symbolic triad of one permission digit.
fn perm_triad_chars(d: u8) -> (r: Vec<char>)
    requires
        d < 8,
    ensures
        r@ == perm_chars(d),
{
    let mut v: Vec<char> = Vec::new();
    v.push(if d & 4 != 0 { 'r' } else { '-' });
    v.push(if d & 2 != 0 { 'w' } else { '-' });
    v.push(if d & 1 != 0 { 'x' } else { '-' });
    proof {
        assert(v@ =~= perm_chars(d));
    }
    v
}

/// The numeric permission string of a mode word is four characters,
/// and each one, read back as a digit, is exactly the 3-bit field of
/// its class: the round trip through the printed octal form loses
/// nothing.
pub proof fn lemma_octal_round_trip(mode: u32)
    ensures
        octal_digits(mode).len() == 4,
        digit_val(octal_digits(mode)[0]) == (mode >> 9) & 7,
        digit_val(octal_digits(mode)[1]) == (mode >> 6) & 7,
        digit_val(octal_digits(mode)[2]) == (mode >> 3) & 7,
        digit_val(octal_digits(mode)[3]) == mode & 7,
{
    assert((mode >> 6) & 7 < 8 && (mode >> 3) & 7 < 8 && mode & 7 < 8 && (mode >> 9) & 7 < 8)
        by (bit_vector);
    lemma_digit_round_trip((((mode >> 9) & 7) as nat));
    lemma_digit_round_trip((((mode >> 6) & 7) as nat));
    lemma_digit_round_trip((((mode >> 3) & 7) as nat));
    lemma_digit_round_trip(((mode & 7) as nat));
}

/// The symbolic permission string of a mode word shows `r`, `w` and
/// `x` exactly where the corresponding mode bits are set: position
/// 3*k+0 shows `r` for bit 8-3k, 3*k+1 shows `w`, 3*k+2 shows `x`.
pub proof fn lemma_symbolic_matches_bits(mode: u32)
    ensures
        symbolic_chars(mode).len() == 9,
        forall|k: int|
            0 <= k < 3 ==> (#[trigger] symbolic_chars(mode)[3 * k] == 'r' <==> triad_of(mode, k)
                & 4 != 0),
        forall|k: int|
            0 <= k < 3 ==> (#[trigger] symbolic_chars(mode)[3 * k + 1] == 'w' <==> triad_of(
                mode,
                k,
            ) & 2 != 0),
        forall|k: int|
            0 <= k < 3 ==> (#[trigger] symbolic_chars(mode)[3 * k + 2] == 'x' <==> triad_of(
                mode,
                k,
            ) & 1 != 0),
{
    assert forall|k: int| 0 <= k < 3 implies (#[trigger] symbolic_chars(mode)[3 * k] == 'r' <==>
        triad_of(mode, k) & 4 != 0) && (symbolic_chars(mode)[3 * k + 1] == 'w' <==> triad_of(
        mode,
        k,
    ) & 2 != 0) && (symbolic_chars(mode)[3 * k + 2] == 'x' <==> triad_of(mode, k) & 1 != 0) by {
        if k == 0 {
        } else if k == 1 {
        } else {
        }
    }
}

/// The 3-bit permission field of class `k` of a mode word: 0 is the
/// owner class, 1 the group class, 2 the other class.
pub open spec fn triad_of(mode: u32, k: int) -> u8 {
    if k == 0 {
        ((mode >> 6) & 7) as u8
    } else if k == 1 {
        ((mode >> 3) & 7) as u8
    } else {
        (mode & 7) as u8
    }
}

/// The major component of a device number, extracted as the C
/// library's `major` macro does on this platform.
pub fn get_dev_major(devno: u64) -> (r: u32)
    ensures
        r == (((devno & 0x00000000000fff00) >> 8) | ((devno & 0xfffff00000000000) >> 32)) as u32,
{
    (((devno & 0x00000000000fff00) >> 8) | ((devno & 0xfffff00000000000) >> 32)) as u32
}

/// The minor component of a device number, extracted as the C
/// library's `minor` macro does on this platform.
pub fn get_dev_minor(devno: u64) -> (r: u32)
    ensures
        r == ((devno & 0x00000000000000ff) | ((devno & 0x00000ffffff00000) >> 12)) as u32,
{
    ((devno & 0x00000000000000ff) | ((devno & 0x00000ffffff00000) >> 12)) as u32
}

} // verus!
