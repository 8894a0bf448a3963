//! Where the library narrates what it does.
use vstd::prelude::*;

verus! {

/// A sink for human-readable progress and result lines.
pub trait ILogger {
    /// The lines logged so far, oldest first.
    spec fn logged(&self) -> Seq<Seq<char>>;

    /// Appends a line.
    fn log(&mut self, message: &str)
        ensures
            final(self).logged() == old(self).logged().push(message@),
    ;

    /// The lines logged so far, each ended by a newline.
    fn entries(&self) -> (r: Vec<String>)
        ensures
            r@.len() == self.logged().len(),
            forall|i: int| 0 <= i < r@.len() ==> #[trigger] r@[i]@ == self.logged()[i] + seq!['\n'],
    ;
}

/// A logger that keeps its lines in memory.
pub struct Logger {
    lines: Vec<String>,
}

impl Default for Logger {
    fn default() -> (r: Self)
        ensures
            r.logged().len() == 0,
    {
        Logger { lines: Vec::new() }
    }
}

impl ILogger for Logger {
    closed spec fn logged(&self) -> Seq<Seq<char>> {
        self.lines@.map_values(|s: String| s@)
    }

    fn log(&mut self, message: &str) {
        self.lines.push(message.to_owned());
        assert(self.lines@.map_values(|s: String| s@) =~= old(self).lines@.map_values(
            |s: String| s@,
        ).push(message@));
    }

    fn entries(&self) -> (r: Vec<String>) {
        let mut r: Vec<String> = Vec::new();
        let mut i: usize = 0;
        while i < self.lines.len()
            invariant
                i <= self.lines@.len(),
                r@.len() == i,
                forall|k: int| 0 <= k < i ==> #[trigger] r@[k]@ == self.lines@[k]@ + seq!['\n'],
            decreases self.lines@.len() - i,
        {
            proof {
                reveal_strlit("\n");
                assert("\n"@ =~= seq!['\n']);
            }
            let mut line = self.lines[i].clone();
            line.append("\n");
            r.push(line);
            i = i + 1;
        }
        r
    }
}

} // verus!
