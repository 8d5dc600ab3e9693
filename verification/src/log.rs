//! The event log: an ordered, append-only record of simulation events.

use vstd::prelude::*;

verus! {

/// An ordered sequence of text lines, most recent last. Lines are only
/// ever appended, never changed or removed; consumers that want a bounded
/// view take a suffix with `tail` without truncating the log itself.
pub struct EventLog {
    /// The lines, in the order the events occurred.
    pub lines: Vec<String>,
}

impl EventLog {
    /// The log's content as a sequence of character sequences, in event
    /// order. Contracts throughout the crate speak of this view.
    pub open spec fn entries(self) -> Seq<Seq<char>> {
        self.lines@.map_values(|s: String| s@)
    }

    /// An empty log.
    pub fn new() -> (r: Self)
        ensures
            r.entries() =~= Seq::<Seq<char>>::empty(),
            r.lines@.len() == 0,
    {
        Self { lines: Vec::new() }
    }

    /// Appends one line at the end; never fails, no validation, no size
    /// limit. Everything already logged is kept unchanged.
    pub fn append(&mut self, line: String)
        ensures
            final(self).lines@ == old(self).lines@.push(line),
            final(self).entries() =~= old(self).entries().push(line@),
    {
        self.lines.push(line);
        proof {
            assert forall|i: int| 0 <= i < self.lines@.len() implies self.entries()[i]
                == old(self).entries().push(line@)[i] by {
                if i < old(self).lines@.len() {
                    assert(self.lines@[i] == old(self).lines@[i]);
                }
            }
        }
    }

    /// The number of lines logged so far.
    pub fn len(&self) -> (r: usize)
        ensures
            r == self.lines@.len(),
    {
        self.lines.len()
    }

    /// The last `n` lines in chronological order (oldest of the selected
    /// window first), or all lines if fewer than `n` exist. Does not
    /// mutate the log and can be called repeatedly.
    pub fn tail(&self, n: usize) -> (r: Vec<String>)
        ensures
            r@.len() == if self.lines@.len() <= n {
                self.lines@.len() as int
            } else {
                n as int
            },
            forall|i: int|
                0 <= i < r@.len() ==> r@[i] == self.lines@[self.lines@.len() - r@.len() + i],
    {
        let len = self.lines.len();
        let start = if len > n {
            len - n
        } else {
            0
        };
        let mut r: Vec<String> = Vec::new();
        let mut j = start;
        while j < len
            invariant
                start <= j <= len,
                len == self.lines@.len(),
                len - start == if self.lines@.len() <= n {
                    self.lines@.len() as int
                } else {
                    n as int
                },
                r@.len() == j - start,
                forall|i: int| 0 <= i < r@.len() ==> r@[i] == self.lines@[start + i],
            decreases len - j,
        {
            r.push(self.lines[j].clone());
            j = j + 1;
        }
        r
    }
}

} // verus!
