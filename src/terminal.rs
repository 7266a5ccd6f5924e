//! The output sink of the shell.
use vstd::prelude::*;

verus! {

/// A character terminal that takes whole lines of output.
pub trait CharacterTerminalWriter {
    /// The lines written to the terminal so far, oldest first.
    spec fn written(&self) -> Seq<Seq<char>>;

    /// Writes `line` as one line of output.
    fn print_line(&mut self, line: &str)
        ensures
            final(self).written() == old(self).written().push(line@),
    ;
}

/// A terminal that keeps every line written to it.
pub struct LineBufferTerminal {
    lines: Vec<String>,
}

impl LineBufferTerminal {
    /// A terminal with nothing written yet.
    pub fn new() -> (t: LineBufferTerminal)
        ensures
            t.written() == Seq::<Seq<char>>::empty(),
    {
        let t = LineBufferTerminal { lines: Vec::new() };
        assert(t.written() =~= Seq::<Seq<char>>::empty());
        t
    }

    /// The lines written so far, oldest first.
    pub fn lines(&self) -> (r: &Vec<String>)
        ensures
            r@.map_values(|l: String| l@) == self.written(),
    {
        &self.lines
    }
}

impl CharacterTerminalWriter for LineBufferTerminal {
    closed spec fn written(&self) -> Seq<Seq<char>> {
        self.lines@.map_values(|l: String| l@)
    }

    fn print_line(&mut self, line: &str) {
        self.lines.push(String::from_str(line));
        assert(self.written() =~= old(self).written().push(line@));
    }
}

} // verus!
