//! The subprocess configuration value and its command-line rendering.

use vstd::prelude::*;
use vstd::string::StrSliceExecFns;
use vstd::string::StringExecFns;

verus! {

/// Where log messages go.
#[derive(Clone, Copy, Debug, PartialEq, Eq, Structural)]
pub enum LogTo {
    /// Print to stdout.
    Stdout,
    /// Hand the line to a leveled logging facility.
    Log,
}

/// A command to run in a subprocess and options for how it is run.
///
/// The fields are public and the value can be cloned; a value is not
/// mutated by a run and may be reused.
#[derive(Clone, Debug, PartialEq, Eq)]
pub struct Command {
    /// Program path.
    ///
    /// The path can be just a file name, in which case the search path
    /// is consulted when the program is spawned.
    pub program: String,

    /// Arguments passed to the program.
    pub args: Vec<String>,

    /// Directory from which to run the program.
    ///
    /// If not set (the default), the current working directory is used.
    pub dir: Option<String>,

    /// Where log messages go. The default is stdout.
    pub log_to: LogTo,

    /// If `true` (the default), log the command before running it.
    pub log_command: bool,

    /// If `true`, log the output if the command exits non-zero or due
    /// to a signal. This does nothing if `capture` is `false` or if
    /// `check` is `false`. The default is `false`.
    pub log_output_on_error: bool,

    /// If `true` (the default), check if the command exited
    /// successfully and report an error if not.
    pub check: bool,

    /// If `true`, capture the stdout and stderr of the command. The
    /// default is `false`.
    pub capture: bool,

    /// If `true`, the child's stderr is sent to its stdout and the
    /// `stderr` field of the output is empty. The default is `false`.
    pub combine_output: bool,

    /// If `false` (the default), the child inherits the environment
    /// variables of the current process.
    pub clear_env: bool,

    /// Environment variables to add or update in the child process,
    /// applied in order after the clear-or-inherit decision, so a later
    /// entry for the same key wins.
    pub env: Vec<(String, String)>,
}

/// A character that may appear unquoted in the command-line rendering:
/// an ASCII letter or digit, or one of the characters `/ - , : . = _`.
pub open spec fn allowed_char(c: char) -> bool {
    let n = c as u32;
    ||| ('a' as u32) <= n <= ('z' as u32)
    ||| ('A' as u32) <= n <= ('Z' as u32)
    ||| ('0' as u32) <= n <= ('9' as u32)
    ||| c == '/'
    ||| c == '-'
    ||| c == ','
    ||| c == ':'
    ||| c == '.'
    ||| c == '='
    ||| c == '_'
}

/// Whether a word contains any character outside the allow-list, which
/// forces the word to be quoted.
pub open spec fn word_needs_quoting(w: Seq<char>) -> bool {
    exists|i: int| 0 <= i < w.len() && !allowed_char(w[i])
}

/// A word as it appears on the rendered command line: wrapped in single
/// quotes when it needs quoting, unchanged otherwise.
pub open spec fn quoted_word(w: Seq<char>) -> Seq<char> {
    if word_needs_quoting(w) {
        seq!['\''] + w + seq!['\'']
    } else {
        w
    }
}

/// The rendering of an argument list: each argument quoted as needed
/// and preceded by a single space.
pub open spec fn args_text(args: Seq<Seq<char>>) -> Seq<char>
    decreases args.len(),
{
    if args.len() == 0 {
        Seq::empty()
    } else {
        args_text(args.drop_last()) + seq![' '] + quoted_word(args.last())
    }
}

/// The full command-line rendering: the program followed by the
/// arguments, space-separated, each quoted as needed.
pub open spec fn command_line_text(c: Command) -> Seq<char> {
    quoted_word(c.program@) + args_text(c.arg_views())
}

/// The pre-run announcement: the command line when announcing is
/// enabled, nothing otherwise.
pub open spec fn announcement_text(c: Command) -> Option<Seq<char>> {
    if c.log_command {
        Some(command_line_text(c))
    } else {
        None
    }
}

/// The default values of every field other than `program` and `args`.
pub open spec fn policy_defaults(c: Command) -> bool {
    &&& c.dir is None
    &&& c.log_to is Stdout
    &&& c.log_command == true
    &&& c.log_output_on_error == false
    &&& c.check == true
    &&& c.capture == false
    &&& c.combine_output == false
    &&& c.clear_env == false
    &&& c.env@.len() == 0
}

/// The character sequences of a sequence of string slices.
pub open spec fn str_views(s: Seq<&str>) -> Seq<Seq<char>> {
    s.map_values(|x: &str| x@)
}

/// Whether `c` is an allowed character; see [`allowed_char`].
fn char_allowed(c: char) -> (r: bool)
    ensures
        r == allowed_char(c),
{
    let n = c as u32;
    (('a' as u32) <= n && n <= ('z' as u32)) || (('A' as u32) <= n && n <= ('Z' as u32))
        || (('0' as u32) <= n && n <= ('9' as u32)) || c == '/' || c == '-' || c == ','
        || c == ':' || c == '.' || c == '=' || c == '_'
}

/// Whether any character of `s` falls outside the allow-list.
fn word_has_disallowed(s: &str) -> (r: bool)
    ensures
        r == word_needs_quoting(s@),
{
    let n = s.unicode_len();
    let mut i: usize = 0;
    while i < n
        invariant
            n == s@.len(),
            i <= n,
            forall|j: int| 0 <= j < i ==> allowed_char(s@[j]),
        decreases n - i,
    {
        let c = s.get_char(i);
        if !char_allowed(c) {
            return true;
        }
        i += 1;
    }
    false
}

/// A word of the command line, quoted if any of its characters falls
/// outside the allow-list.
fn convert_word(w: &String) -> (r: String)
    ensures
        r@ == quoted_word(w@),
{
    if word_has_disallowed(w.as_str()) {
        let quote = String::from_str("'");
        let r = quote.concat(w.as_str()).concat("'");
        proof {
            reveal_strlit("'");
            assert(r@ =~= seq!['\''] + w@ + seq!['\'']);
        }
        r
    } else {
        w.clone()
    }
}

impl Command {
    /// The character sequences of the arguments.
    pub open spec fn arg_views(&self) -> Seq<Seq<char>> {
        self.args@.map_values(|a: String| a@)
    }

    /// Make a new Command with the given program.
    ///
    /// All other fields are set to the defaults.
    pub fn new(program: &str) -> (c: Command)
        ensures
            c.program@ == program@,
            c.args@.len() == 0,
            policy_defaults(c),
    {
        let mut c = Command::default();
        c.program = String::from_str(program);
        c
    }

    /// Make a new Command with the given program and args.
    ///
    /// All other fields are set to the defaults.
    pub fn with_args(program: &str, args: &[&str]) -> (c: Command)
        ensures
            c.program@ == program@,
            c.arg_views() == str_views(args@),
            policy_defaults(c),
    {
        let mut c = Command::new(program);
        c.add_args(args);
        proof {
            assert(c.arg_views() =~= str_views(args@));
        }
        c
    }

    /// Append a single argument.
    pub fn add_arg(&mut self, arg: &str)
        ensures
            *final(self) == (Command { args: final(self).args, ..*old(self) }),
            final(self).arg_views() == old(self).arg_views().push(arg@),
    {
        self.args.push(String::from_str(arg));
        proof {
            assert(self.arg_views() =~= old(self).arg_views().push(arg@));
        }
    }

    /// Append two arguments.
    ///
    /// This is equivalent to calling [`Command::add_arg`] twice; it is
    /// for the common case of a flag followed by its value.
    pub fn add_arg_pair(&mut self, arg1: &str, arg2: &str)
        ensures
            *final(self) == (Command { args: final(self).args, ..*old(self) }),
            final(self).arg_views() == old(self).arg_views().push(arg1@).push(arg2@),
    {
        self.add_arg(arg1);
        self.add_arg(arg2);
    }

    /// Append multiple arguments.
    pub fn add_args(&mut self, args: &[&str])
        ensures
            *final(self) == (Command { args: final(self).args, ..*old(self) }),
            final(self).arg_views() == old(self).arg_views() + str_views(args@),
    {
        let n = args.len();
        let mut i: usize = 0;
        while i < n
            invariant
                n == args@.len(),
                i <= n,
                *self == (Command { args: self.args, ..*old(self) }),
                self.arg_views() == old(self).arg_views() + str_views(args@.take(i as int)),
            decreases n - i,
        {
            let a: &str = args[i];
            self.add_arg(a);
            proof {
                assert(str_views(args@.take(i + 1 as int)) =~= str_views(
                    args@.take(i as int),
                ).push(args@[i as int]@));
                assert(self.arg_views() =~= old(self).arg_views() + str_views(
                    args@.take(i + 1 as int),
                ));
            }
            i += 1;
        }
        proof {
            assert(args@.take(n as int) =~= args@);
        }
    }

    /// Set `capture` to `true`.
    pub fn enable_capture(&mut self)
        ensures
            *final(self) == (Command { capture: true, ..*old(self) }),
    {
        self.capture = true;
    }

    /// Set `combine_output` to `true`.
    pub fn combine_output(&mut self)
        ensures
            *final(self) == (Command { combine_output: true, ..*old(self) }),
    {
        self.combine_output = true;
    }

    /// Set the directory from which to run the program.
    pub fn set_dir(&mut self, dir: &str)
        ensures
            *final(self) == (Command { dir: final(self).dir, ..*old(self) }),
            final(self).dir matches Some(d) && d@ == dir@,
    {
        self.dir = Some(String::from_str(dir));
    }

    /// Set `check` to `false`.
    pub fn disable_check(&mut self)
        ensures
            *final(self) == (Command { check: false, ..*old(self) }),
    {
        self.check = false;
    }

    /// Format as a space-separated command line.
    ///
    /// If any component contains characters that are not ASCII
    /// alphanumeric or in the set `/-,:.=_`, the component is quoted
    /// with `'` (single quotes). This is both too aggressive
    /// (unnecessarily quoting things that don't need to be quoted)
    /// and incorrect (e.g. a single quote will itself be quoted with
    /// a single quote). This method is mostly intended for logging
    /// though, and it should work reasonably well for that.
    pub fn command_line_lossy(&self) -> (r: String)
        ensures
            r@ == command_line_text(*self),
    {
        let mut out = convert_word(&self.program);
        let n = self.args.len();
        let mut i: usize = 0;
        while i < n
            invariant
                n == self.args@.len(),
                i <= n,
                out@ == quoted_word(self.program@) + args_text(self.arg_views().take(i as int)),
            decreases n - i,
        {
            out.append(" ");
            let w = convert_word(&self.args[i]);
            out.append(w.as_str());
            proof {
                reveal_strlit(" ");
                let argv = self.arg_views();
                assert(" "@ =~= seq![' ']);
                assert(argv.take(i + 1 as int).drop_last() =~= argv.take(i as int));
                assert(argv.take(i + 1 as int).last() == argv[i as int]);
                assert(out@ =~= quoted_word(self.program@) + args_text(argv.take(i + 1 as int)));
            }
            i += 1;
        }
        proof {
            assert(self.arg_views().take(n as int) =~= self.arg_views());
        }
        out
    }

    /// The line announced before a run: the command-line rendering when
    /// `log_command` is set, nothing otherwise.
    pub fn announcement(&self) -> (r: Option<String>)
        ensures
            r.deep_view() == announcement_text(*self),
    {
        if self.log_command {
            Some(self.command_line_lossy())
        } else {
            None
        }
    }
}

impl Default for Command {
    /// The default configuration: empty program and arguments, current
    /// working directory, announce to stdout, check enabled, capture
    /// and merged output disabled, inherited environment.
    fn default() -> (c: Command)
        ensures
            c.program@.len() == 0,
            c.args@.len() == 0,
            policy_defaults(c),
    {
        Command {
            program: String::new(),
            args: Vec::new(),
            dir: None,
            log_to: LogTo::Stdout,
            log_command: true,
            log_output_on_error: false,
            check: true,
            capture: false,
            combine_output: false,
            clear_env: false,
            env: Vec::new(),
        }
    }
}

} // verus!
