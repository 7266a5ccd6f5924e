//! An exact line matcher: decides whether the current input line invokes a
//! given command name, and captures the argument text that follows it.
use vstd::prelude::*;

verus! {

/// Whether `c` separates a command name from its arguments.
pub open spec fn is_separator(c: char) -> bool {
    c == ' ' || c == '\t'
}

/// `line` invokes the command `cmd`: it is `cmd` alone, or `cmd` followed by a
/// separator and the arguments.
pub open spec fn line_matches(line: Seq<char>, cmd: Seq<char>) -> bool {
    &&& cmd.is_prefix_of(line)
    &&& (line.len() == cmd.len() || is_separator(line[cmd.len() as int]))
}

/// The argument text of `line` once the command `cmd` and the separator after
/// it are taken off.
pub open spec fn args_after(line: Seq<char>, cmd: Seq<char>) -> Seq<char> {
    if line.len() <= cmd.len() {
        Seq::empty()
    } else {
        line.subrange(cmd.len() as int + 1, line.len() as int)
    }
}

/// What a matcher knows: the line, the arguments of the command that matched
/// (if one did), and the prefixes that callers reported as not matching.
pub struct MatcherModel {
    pub line: Seq<char>,
    pub found: Option<Seq<char>>,
    pub unmatched: Seq<Seq<char>>,
}

impl MatcherModel {
    /// A matcher that has just been given `line`.
    pub open spec fn fresh(line: Seq<char>) -> MatcherModel {
        MatcherModel { line, found: None, unmatched: Seq::empty() }
    }

    /// The matcher after the command `cmd` has been tried against it.
    pub open spec fn after_match(self, cmd: Seq<char>) -> MatcherModel {
        if self.found is None && line_matches(self.line, cmd) {
            MatcherModel { found: Some(args_after(self.line, cmd)), ..self }
        } else {
            self
        }
    }

    /// What trying the command `cmd` against the matcher reports.
    pub open spec fn progress(self, cmd: Seq<char>) -> LineMatcherProgress {
        if self.found is Some {
            LineMatcherProgress::Finished
        } else if line_matches(self.line, cmd) {
            LineMatcherProgress::MatchFound
        } else {
            LineMatcherProgress::NoMatch
        }
    }
}

/// Whether `s` holds no separator, so that it names a command of one word.
pub open spec fn is_word(s: Seq<char>) -> bool {
    forall|i: int| 0 <= i < s.len() ==> !is_separator(#[trigger] s[i])
}

/// On a fresh line that is `cmd` alone (`rest` is `None`), or `cmd`, a
/// separator and the text `rest`, the command `cmd` is found, with `rest` (or
/// nothing) as its arguments.
pub proof fn lemma_command_found(cmd: Seq<char>, sep: char, rest: Option<Seq<char>>)
    requires
        is_separator(sep),
    ensures
        ({
            let line = match rest {
                None => cmd,
                Some(a) => cmd + seq![sep] + a,
            };
            let m = MatcherModel::fresh(line);
            &&& m.progress(cmd) == LineMatcherProgress::MatchFound
            &&& m.after_match(cmd).found == Some(
                match rest {
                    None => Seq::<char>::empty(),
                    Some(a) => a,
                },
            )
        }),
{
    match rest {
        None => {
            assert(cmd.subrange(0, cmd.len() as int) =~= cmd);
        },
        Some(a) => {
            let line = cmd + seq![sep] + a;
            assert(line.subrange(0, cmd.len() as int) =~= cmd);
            assert(line[cmd.len() as int] == sep);
            assert(line.subrange(cmd.len() as int + 1, line.len() as int) =~= a);
        },
    }
}

/// On a fresh line that is the one-word command `cmd` alone, or followed by a
/// separator and the text `rest`, no other one-word command is found.
pub proof fn lemma_other_command_not_found(
    cmd: Seq<char>,
    sep: char,
    rest: Option<Seq<char>>,
    other: Seq<char>,
)
    requires
        is_separator(sep),
        is_word(cmd),
        is_word(other),
        other != cmd,
    ensures
        ({
            let line = match rest {
                None => cmd,
                Some(a) => cmd + seq![sep] + a,
            };
            let m = MatcherModel::fresh(line);
            &&& m.progress(other) == LineMatcherProgress::NoMatch
            &&& m.after_match(other) == m
        }),
{
    let line = match rest {
        None => cmd,
        Some(a) => cmd + seq![sep] + a,
    };
    assert(forall|i: int| 0 <= i < cmd.len() ==> line[i] == cmd[i]);
    if line_matches(line, other) {
        assert(forall|i: int| 0 <= i < other.len() ==> line[i] == other[i]);
        if other.len() < cmd.len() {
            assert(!is_separator(cmd[other.len() as int]));
        } else if other.len() == cmd.len() {
            assert(other =~= cmd);
        } else {
            assert(line[cmd.len() as int] == sep);
            assert(!is_separator(other[cmd.len() as int]));
        }
    }
}

/// A name that is not found leaves the matcher as it was, so that trying it
/// again reports the same and again changes nothing.
pub proof fn lemma_unmatched_retry(m: MatcherModel, cmd: Seq<char>)
    requires
        m.progress(cmd) != LineMatcherProgress::MatchFound,
    ensures
        m.after_match(cmd) == m,
        m.after_match(cmd).progress(cmd) == m.progress(cmd),
        m.after_match(cmd).after_match(cmd) == m,
{
}

/// The outcome of trying one command name against the line.
#[derive(Debug, Clone, Copy, PartialEq, Eq, Structural)]
pub enum LineMatcherProgress {
    /// The line invokes this command; its arguments are now in the matcher's state.
    MatchFound,
    /// The line does not invoke this command.
    NoMatch,
    /// A command already matched this line; no other is tried.
    Finished,
}

/// The result state of a matcher.
#[derive(Debug)]
pub enum LineBufferResult {
    /// No command has matched the line yet.
    NoMatchFound,
    /// A command matched; `args` is the text that followed it.
    Match { args: String },
}

impl View for LineBufferResult {
    type V = Option<Seq<char>>;

    open spec fn view(&self) -> Option<Seq<char>> {
        match self {
            LineBufferResult::NoMatchFound => None,
            LineBufferResult::Match { args } => Some(args@),
        }
    }
}

/// Matches command names against one input line.
pub struct CliLineMatcher {
    line: String,
    state: LineBufferResult,
    unmatched_prefixes: Vec<String>,
}

impl View for CliLineMatcher {
    type V = MatcherModel;

    closed spec fn view(&self) -> MatcherModel {
        MatcherModel {
            line: self.line@,
            found: self.state@,
            unmatched: self.unmatched_prefixes@.map_values(|p: String| p@),
        }
    }
}

/// Whether `prefix` starts `s`.
fn starts_with_chars(s: &str, prefix: &str) -> (r: bool)
    ensures
        r == prefix@.is_prefix_of(s@),
{
    let n = prefix.unicode_len();
    if n > s.unicode_len() {
        return false;
    }
    let mut i: usize = 0;
    while i < n
        invariant
            n == prefix@.len(),
            n <= s@.len(),
            i <= n,
            forall|k: int| 0 <= k < i ==> prefix@[k] == s@[k],
        decreases n - i,
    {
        if prefix.get_char(i) != s.get_char(i) {
            return false;
        }
        i = i + 1;
    }
    assert(prefix@ =~= s@.subrange(0, n as int));
    true
}

impl CliLineMatcher {
    /// A matcher over `line`, with no command matched yet.
    pub fn new(line: &str) -> (m: CliLineMatcher)
        ensures
            m@ == MatcherModel::fresh(line@),
    {
        let m = CliLineMatcher {
            line: String::from_str(line),
            state: LineBufferResult::NoMatchFound,
            unmatched_prefixes: Vec::new(),
        };
        assert(m@.unmatched =~= Seq::<Seq<char>>::empty());
        m
    }

    /// The line being matched.
    pub fn line(&self) -> (r: &str)
        ensures
            r@ == self@.line,
    {
        self.line.as_str()
    }

    /// Whether the line starts with `prefix`.
    pub fn starts_with(&self, prefix: &str) -> (r: bool)
        ensures
            r == prefix@.is_prefix_of(self@.line),
    {
        starts_with_chars(self.line.as_str(), prefix)
    }

    /// Tries the command `cmd` against the line. On a match the arguments that
    /// follow the command become the result state; once a command has matched,
    /// no further command is tried.
    pub fn match_cmd_str(&mut self, cmd: &str) -> (r: LineMatcherProgress)
        ensures
            r == old(self)@.progress(cmd@),
            final(self)@ == old(self)@.after_match(cmd@),
    {
        if let LineBufferResult::Match { .. } = self.state {
            return LineMatcherProgress::Finished;
        }
        let line = self.line.as_str();
        if !starts_with_chars(line, cmd) {
            return LineMatcherProgress::NoMatch;
        }
        let n = cmd.unicode_len();
        let len = line.unicode_len();
        if n == len {
            self.state = LineBufferResult::Match { args: String::new() };
            return LineMatcherProgress::MatchFound;
        }
        let c = line.get_char(n);
        if c != ' ' && c != '\t' {
            return LineMatcherProgress::NoMatch;
        }
        let args = String::from_str(line.substring_char(n + 1, len));
        self.state = LineBufferResult::Match { args };
        LineMatcherProgress::MatchFound
    }

    /// The result state: the arguments of the command that matched, if any.
    pub fn get_state(&self) -> (r: &LineBufferResult)
        ensures
            r@ == self@.found,
    {
        &self.state
    }

    /// Records that the line does not start with `prefix`, so that the branch
    /// it opens can be reported to the user.
    pub fn add_unmatched_prefix(&mut self, prefix: &str)
        ensures
            final(self)@ == (MatcherModel {
                unmatched: old(self)@.unmatched.push(prefix@),
                ..old(self)@
            }),
    {
        self.unmatched_prefixes.push(String::from_str(prefix));
        assert(self@.unmatched =~= old(self)@.unmatched.push(prefix@));
    }

    /// The prefixes reported as not matching, oldest first.
    pub fn unmatched_prefixes(&self) -> (r: &Vec<String>)
        ensures
            r@.map_values(|p: String| p@) == self@.unmatched,
    {
        &self.unmatched_prefixes
    }
}

} // verus!
