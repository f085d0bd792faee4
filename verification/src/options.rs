//! The per-invocation option set and the scanner that fills it from
//! the command line.
use vstd::prelude::*;
use vstd::string::StringExecFns;
use crate::text::str_eq;

verus! {

/// Whether the scanner still expects the directive string that a
/// format option announces.
#[derive(Debug, Clone, Copy, PartialEq, Eq, Structural)]
pub enum NeedFlag {
    /// No format option seen.
    Default,
    /// A format option was seen; the next token is its directive
    /// string.
    Need,
    /// The directive string was consumed.
    Over,
}

/// The configuration errors: malformed intent stops before any query
/// runs.
#[derive(Debug, Clone, Copy, PartialEq, Eq, Structural)]
pub enum StatError {
    /// An unrecognized flag token.
    InvalidOption,
    /// Mutually exclusive flags selected together.
    WrongOption,
    /// A path that no query could resolve.
    UnknowFile,
    /// A directive string that could not be interpreted.
    InvalidFormat,
    /// A format option with no directive string following it.
    MissingFormat,
}

/// The options selected for one invocation.
#[derive(Debug)]
pub struct OptionSelected {
    /// Dereference symbolic links before querying.
    pub blink: bool,
    /// Render the terse fixed-column layout.
    pub bterse: bool,
    /// Render with a custom directive string.
    pub bfilter: bool,
    /// Query filesystem metadata instead of file metadata.
    pub bfilesystem: bool,
    /// Print the directive reference after the output.
    pub bmhelper: bool,
    /// The paths to query.
    pub files: Vec<String>,
    /// The custom directive string, when one was given.
    pub output_inf: String,
    /// The scanner's format-string state.
    pub needflag: NeedFlag,
}

/// The mathematical image of an option set.
#[verifier::ext_equal]
pub struct OptState {
    /// Dereference symbolic links before querying.
    pub blink: bool,
    /// Render the terse fixed-column layout.
    pub bterse: bool,
    /// Render with a custom directive string.
    pub bfilter: bool,
    /// Query filesystem metadata instead of file metadata.
    pub bfilesystem: bool,
    /// Print the directive reference after the output.
    pub bmhelper: bool,
    /// The paths to query.
    pub files: Seq<Seq<char>>,
    /// The custom directive string.
    pub output_inf: Seq<char>,
    /// The scanner's format-string state.
    pub needflag: NeedFlag,
}

impl View for OptionSelected {
    type V = OptState;

    open spec fn view(&self) -> OptState {
        OptState {
            blink: self.blink,
            bterse: self.bterse,
            bfilter: self.bfilter,
            bfilesystem: self.bfilesystem,
            bmhelper: self.bmhelper,
            files: self.files.deep_view(),
            output_inf: self.output_inf@,
            needflag: self.needflag,
        }
    }
}

/// The option set before any argument is read.
pub open spec fn init_state() -> OptState {
    OptState {
        blink: false,
        bterse: false,
        bfilter: false,
        bfilesystem: false,
        bmhelper: false,
        files: Seq::empty(),
        output_inf: Seq::empty(),
        needflag: NeedFlag::Default,
    }
}

/// One cluster of single-letter options, applied character by
/// character from position `i` on; the leading dash is one of the
/// accepted characters. An unrecognized letter is an invalid option.
pub open spec fn apply_shorts(st: OptState, arg: Seq<char>, i: int) -> Result<
    OptState,
    StatError,
>
    decreases arg.len() - i,
{
    if i < 0 || i >= arg.len() {
        Ok(st)
    } else {
        let c = arg[i];
        if c == 'L' {
            apply_shorts(OptState { blink: true, ..st }, arg, i + 1)
        } else if c == 'c' {
            apply_shorts(OptState { bfilter: true, needflag: NeedFlag::Need, ..st }, arg, i + 1)
        } else if c == 't' {
            apply_shorts(OptState { bterse: true, ..st }, arg, i + 1)
        } else if c == 'H' {
            apply_shorts(OptState { bmhelper: true, ..st }, arg, i + 1)
        } else if c == 'f' {
            apply_shorts(OptState { bfilesystem: true, ..st }, arg, i + 1)
        } else if c == '-' {
            apply_shorts(st, arg, i + 1)
        } else {
            Err(StatError::InvalidOption)
        }
    }
}

/// How one argument token changes the option set. An empty token is
/// skipped. A token read while a directive string is owed becomes
/// that string. A `--` token selects one long option by name, a
/// token opening with one dash is a cluster of single-letter
/// options, and anything else is a path to query.
pub open spec fn arg_step(st: OptState, arg: Seq<char>) -> Result<OptState, StatError> {
    if arg.len() == 0 {
        Ok(st)
    } else if st.needflag is Need {
        Ok(OptState { output_inf: st.output_inf + arg, needflag: NeedFlag::Over, ..st })
    } else if arg.len() >= 2 && arg[0] == '-' && arg[1] == '-' {
        if arg.len() == 2 {
            Ok(st)
        } else {
            let rest = arg.skip(2);
            if rest == "dereference"@ {
                Ok(OptState { blink: true, ..st })
            } else if rest == "format=FORMAT"@ {
                Ok(OptState { bfilter: true, needflag: NeedFlag::Need, ..st })
            } else if rest == "terse"@ {
                Ok(OptState { bterse: true, ..st })
            } else if rest == "more-help"@ {
                Ok(OptState { bmhelper: true, ..st })
            } else if rest == "file-system"@ {
                Ok(OptState { bfilesystem: true, ..st })
            } else {
                Err(StatError::InvalidOption)
            }
        }
    } else if arg[0] == '-' {
        apply_shorts(st, arg, 0)
    } else {
        Ok(OptState { files: st.files.push(arg), ..st })
    }
}

/// The option set after the argument tokens from position `i` on, or
/// the first configuration error among them. Position 0 carries the
/// program name and is never read.
pub open spec fn parse_args(st: OptState, args: Seq<Seq<char>>, i: int) -> Result<
    OptState,
    StatError,
>
    decreases args.len() - i,
{
    if i < 0 || i >= args.len() {
        Ok(st)
    } else {
        match arg_step(st, args[i]) {
            Err(e) => Err(e),
            Ok(st2) => parse_args(st2, args, i + 1),
        }
    }
}

/// What reading an argument list leaves behind: the parsed option
/// set, or the first configuration error; a format option that no
/// directive string followed is a missing format.
pub open spec fn readoption_result(st: OptState, args: Seq<Seq<char>>) -> Result<
    OptState,
    StatError,
> {
    match parse_args(st, args, 1) {
        Err(e) => Err(e),
        Ok(f) => if f.needflag is Need {
            Err(StatError::MissingFormat)
        } else {
            Ok(f)
        },
    }
}

impl OptionSelected {
    /// The default option set: nothing selected, no paths.
    pub fn default() -> (r: OptionSelected)
        ensures
            r@ == init_state(),
    {
        let r = OptionSelected {
            blink: false,
            bterse: false,
            bfilter: false,
            bfilesystem: false,
            bmhelper: false,
            files: vec![],
            needflag: NeedFlag::Default,
            output_inf: String::new(),
        };
        proof {
            assert(r@.files =~= init_state().files);
            assert(r@ =~~= init_state());
        }
        r
    }

    /// Applies one cluster of single-letter options, character by
    /// character.
    fn apply_short_cluster(&mut self, iter: &str) -> (r: Result<(), StatError>)
        ensures
            r matches Ok(()) ==> apply_shorts(old(self)@, iter@, 0) == Ok::<OptState, StatError>(
                final(self)@,
            ),
            r matches Err(e) ==> apply_shorts(old(self)@, iter@, 0) == Err::<OptState, StatError>(
                e,
            ),
    {
        let length = iter.unicode_len();
        let mut j: usize = 0;
        while j < length
            invariant
                j <= length,
                length == iter@.len(),
                apply_shorts(old(self)@, iter@, 0) == apply_shorts(self@, iter@, j as int),
            decreases length - j,
        {
            let ghost inpre = self@;
            let ch = iter.get_char(j);
            if ch == 'L' {
                self.blink = true;
            } else if ch == 'c' {
                self.bfilter = true;
                self.needflag = NeedFlag::Need;
            } else if ch == 't' {
                self.bterse = true;
            } else if ch == 'H' {
                self.bmhelper = true;
            } else if ch == 'f' {
                self.bfilesystem = true;
            } else if ch == '-' {
                // A dash inside a cluster selects nothing.
            } else {
                proof {
                    assert(apply_shorts(inpre, iter@, j as int) == Err::<OptState, StatError>(
                        StatError::InvalidOption,
                    ));
                }
                return Err(StatError::InvalidOption);
            }
            j = j + 1;
            proof {
                assert(apply_shorts(inpre, iter@, (j - 1) as int) == apply_shorts(
                    self@,
                    iter@,
                    j as int,
                ));
            }
        }
        proof {
            assert(apply_shorts(self@, iter@, length as int) == Ok::<OptState, StatError>(self@));
        }
        Ok(())
    }

    /// Applies one argument token to this option set, as `arg_step`
    /// describes.
    fn apply_one_arg(&mut self, iter: &String) -> (r: Result<(), StatError>)
        ensures
            r matches Ok(()) ==> arg_step(old(self)@, iter@) == Ok::<OptState, StatError>(
                final(self)@,
            ),
            r matches Err(e) ==> arg_step(old(self)@, iter@) == Err::<OptState, StatError>(e),
    {
        let ghost pre = self@;
        let length = iter.as_str().unicode_len();
        if length == 0 {
            // An empty token changes nothing.
            Ok(())
        } else if self.needflag == NeedFlag::Need {
            self.output_inf.append(iter.as_str());
            self.needflag = NeedFlag::Over;
            proof {
                assert(self@ =~~= (OptState {
                    output_inf: pre.output_inf + iter@,
                    needflag: NeedFlag::Over,
                    ..pre
                }));
            }
            Ok(())
        } else if length >= 2 && iter.as_str().get_char(0) == '-' && iter.as_str().get_char(1)
            == '-' {
            if length > 2 {
                let longoption = iter.as_str().substring_char(2, length);
                proof {
                    assert(longoption@ =~= iter@.skip(2));
                }
                if str_eq(longoption, "dereference") {
                    self.blink = true;
                    Ok(())
                } else if str_eq(longoption, "format=FORMAT") {
                    self.bfilter = true;
                    self.needflag = NeedFlag::Need;
                    Ok(())
                } else if str_eq(longoption, "terse") {
                    self.bterse = true;
                    Ok(())
                } else if str_eq(longoption, "more-help") {
                    self.bmhelper = true;
                    Ok(())
                } else if str_eq(longoption, "file-system") {
                    self.bfilesystem = true;
                    Ok(())
                } else {
                    Err(StatError::InvalidOption)
                }
            } else {
                Ok(())
            }
        } else if iter.as_str().get_char(0) == '-' {
            self.apply_short_cluster(iter.as_str())
        } else {
            self.files.push(iter.clone());
            proof {
                assert(self@.files =~= pre.files.push(iter@));
                assert(self@ =~~= (OptState { files: pre.files.push(iter@), ..pre }));
            }
            Ok(())
        }
    }

    /// Reads the option tokens of one invocation into this option
    /// set. The first token is the program name and is discarded.
    /// Scanning stops at the first unrecognized option; a format
    /// option must be followed by its directive string.
    pub fn readoption(&mut self, args: Vec<String>) -> (r: Result<(), StatError>)
        ensures
            r matches Ok(()) ==> readoption_result(old(self)@, args.deep_view()) == Ok::<
                OptState,
                StatError,
            >(final(self)@),
            r matches Err(e) ==> readoption_result(old(self)@, args.deep_view()) == Err::<
                OptState,
                StatError,
            >(e),
    {
        let ghost init = self@;
        let ghost argv = args.deep_view();
        let mlen = args.len();
        let mut x: usize = 1;
        while x < mlen
            invariant
                1 <= x,
                x <= mlen || mlen < 1,
                mlen == argv.len(),
                argv == args.deep_view(),
                init == old(self)@,
                parse_args(init, argv, 1) == parse_args(self@, argv, x as int),
            decreases mlen - x,
        {
            let ghost pre = self@;
            let iter = &args[x];
            proof {
                assert(argv[x as int] == iter@);
            }
            match self.apply_one_arg(iter) {
                Err(e) => {
                    proof {
                        assert(parse_args(pre, argv, x as int) == Err::<OptState, StatError>(e));
                        assert(readoption_result(init, argv) == Err::<OptState, StatError>(e));
                    }
                    return Err(e);
                },
                Ok(()) => {},
            }
            proof {
                assert(parse_args(pre, argv, x as int) == parse_args(self@, argv, x + 1));
            }
            x = x + 1;
        }
        proof {
            assert(parse_args(self@, argv, x as int) == Ok::<OptState, StatError>(self@));
        }
        if self.needflag == NeedFlag::Need {
            return Err(StatError::MissingFormat);
        }
        Ok(())
    }
}

} // verus!
