//! The console context: pending input lines, accumulated output, and the
//! behavioural flags that every command consults.
use vstd::prelude::*;

verus! {

/// Flags that change how a command runs.
#[derive(Debug, Clone, Copy, PartialEq, Eq, Structural)]
pub struct RunFlags {
    /// Show detailed output.
    pub verbose: bool,
    /// Show timing information.
    pub timing: bool,
    /// Describe changes instead of making them.
    pub dry_run: bool,
}

/// Input and output of a command: the lines the user has typed that are not
/// read yet, and the text written so far.
pub struct IoCtx {
    /// Lines of input, each as read (possibly with its line break).
    pub input: Vec<String>,
    /// How many lines of `input` have been read.
    pub pos: usize,
    /// Text written so far.
    pub output: String,
    /// Show detailed output.
    pub verbose: bool,
    /// Show timing information.
    pub timing: bool,
    /// Describe changes instead of making them.
    pub dry_run: bool,
}

/// The message of a prompt that finds no more input.
pub open spec fn eof_msg() -> Seq<char> {
    "unexpected end of input"@
}

impl IoCtx {
    /// Lines not read yet.
    pub open spec fn pending(&self) -> Seq<String> {
        if self.pos <= self.input@.len() {
            self.input@.skip(self.pos as int)
        } else {
            seq![]
        }
    }

    /// `self` and `other` differ at most in how far input was read and in output.
    pub open spec fn same_setting(&self, other: &IoCtx) -> bool {
        &&& self.input@ == other.input@
        &&& self.verbose == other.verbose
        &&& self.timing == other.timing
        &&& self.dry_run == other.dry_run
    }

    /// `self` is `old` with `text` written and `n` lines read.
    pub open spec fn wrote_read(&self, old: &IoCtx, text: Seq<char>, n: nat) -> bool {
        &&& self.same_setting(old)
        &&& n <= old.pending().len()
        &&& self.pending() == old.pending().skip(n as int)
        &&& self.output@ == old.output@ + text
    }

    /// `self` is `old` with `text` written and no input read.
    pub open spec fn wrote(&self, old: &IoCtx, text: Seq<char>) -> bool {
        &&& self.same_setting(old)
        &&& self.pending() == old.pending()
        &&& self.output@ == old.output@ + text
    }

    /// The flags of this context.
    pub open spec fn spec_flags(&self) -> RunFlags {
        RunFlags { verbose: self.verbose, timing: self.timing, dry_run: self.dry_run }
    }

    /// A context with the given input lines, no output yet, and the given flags.
    pub fn new(input: Vec<String>, flags: RunFlags) -> (r: IoCtx)
        ensures
            r.input@ == input@,
            r.pos == 0,
            r.pending() == input@,
            r.output@ == Seq::<char>::empty(),
            r.spec_flags() == flags,
    {
        let r = IoCtx {
            input,
            pos: 0,
            output: String::new(),
            verbose: flags.verbose,
            timing: flags.timing,
            dry_run: flags.dry_run,
        };
        assert(r.input@.skip(0) =~= r.input@);
        r
    }

    /// The flags of this context.
    pub fn flags(&self) -> (r: RunFlags)
        ensures
            r == self.spec_flags(),
    {
        RunFlags { verbose: self.verbose, timing: self.timing, dry_run: self.dry_run }
    }

    /// Reads the next line of input, or `None` at the end of input.
    pub fn read_line(&mut self) -> (r: Option<String>)
        ensures
            match r {
                Some(l) => {
                    &&& old(self).pending().len() > 0
                    &&& l == old(self).pending()[0]
                    &&& final(self).wrote_read(old(self), Seq::empty(), 1)
                },
                None => {
                    &&& old(self).pending().len() == 0
                    &&& final(self).wrote(old(self), Seq::empty())
                },
            },
    {
        if self.pos < self.input.len() {
            let l = self.input[self.pos].clone();
            self.pos = self.pos + 1;
            proof {
                assert(self.pending() =~= old(self).pending().skip(1));
                assert(self.output@ =~= old(self).output@ + Seq::<char>::empty());
            }
            Some(l)
        } else {
            proof {
                assert(self.output@ =~= old(self).output@ + Seq::<char>::empty());
            }
            None
        }
    }

    /// Writes text to the output.
    pub fn write(&mut self, s: &str)
        ensures
            final(self).wrote(old(self), s@),
    {
        self.output.append(s);
    }

    /// Writes a `String` to the output.
    pub fn write_string(&mut self, s: &String)
        ensures
            final(self).wrote(old(self), s@),
    {
        self.output.append(s.as_str());
    }
}

} // verus!
