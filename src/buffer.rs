use crate::line::{graphemes_of, joined, Line};
use vstd::prelude::*;

verus! {

/// The lines of a text, in order.
pub uninterp spec fn lines_of(text: Seq<char>) -> Seq<Seq<char>>;

/// Relies on `str::lines`: the text's lines, split at `\n` or `\r\n`, without
/// their terminators, each copied into its own string.
#[verifier::external_body]
fn split_lines(text: &str) -> (r: Vec<String>)
    ensures
        r@.len() == lines_of(text@).len(),
        forall|i: int| 0 <= i < r@.len() ==> #[trigger] r@[i]@ == lines_of(text@)[i],
{
    text.lines().map(|l| l.to_string()).collect()
}

/// The lines of the text being viewed.
pub struct Buffer {
    pub lines: Vec<Line>,
}

impl Default for Buffer {
    fn default() -> (r: Self)
        ensures
            r.lines@.len() == 0,
    {
        Buffer { lines: Vec::new() }
    }
}

impl Buffer {
    /// The number of graphemes on line `y`, or zero where there is no such line.
    pub open spec fn line_length(&self, y: int) -> int {
        if 0 <= y < self.lines@.len() {
            self.lines@[y].graphemes().len() as int
        } else {
            0
        }
    }

    /// The buffer holds one line for each line of `text`, in order.
    pub open spec fn holds(&self, text: Seq<char>) -> bool {
        &&& self.lines@.len() == lines_of(text).len()
        &&& forall|i: int|
            0 <= i < self.lines@.len() ==> #[trigger] self.lines@[i].graphemes() == graphemes_of(
                lines_of(text)[i],
            )
        &&& forall|i: int|
            0 <= i < self.lines@.len() ==> #[trigger] joined(self.lines@[i].graphemes())
                == lines_of(text)[i]
    }

    /// One line for each line of `file_contents`, in order.
    pub fn load(file_contents: &str) -> (r: Self)
        ensures
            r.holds(file_contents@),
    {
        let texts = split_lines(file_contents);
        let mut lines: Vec<Line> = Vec::new();
        let mut i: usize = 0;
        while i < texts.len()
            invariant
                i <= texts@.len(),
                texts@.len() == lines_of(file_contents@).len(),
                forall|j: int| 0 <= j < texts@.len() ==> #[trigger] texts@[j]@ == lines_of(file_contents@)[j],
                lines@.len() == i,
                forall|j: int|
                    0 <= j < i ==> #[trigger] lines@[j].graphemes() == graphemes_of(texts@[j]@),
                forall|j: int| 0 <= j < i ==> #[trigger] joined(lines@[j].graphemes()) == texts@[j]@,
            decreases texts@.len() - i,
        {
            let line = Line::from(texts[i].as_str());
            lines.push(line);
            i = i + 1;
        }
        Buffer { lines }
    }

    pub fn is_empty(&self) -> (r: bool)
        ensures
            r == (self.lines@.len() == 0),
    {
        self.lines.len() == 0
    }
}

} // verus!
