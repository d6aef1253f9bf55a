//! The append-only history log of a post and its numbered rendering.
use vstd::prelude::*;
use crate::text::{decimal, decimal_string, join_lines};

verus! {

/// One rendered line of a log: `"<index> -> <entry>"`.
pub open spec fn numbered_line(index: nat, entry: Seq<char>) -> Seq<char> {
    decimal(index) + seq![' ', '-', '>', ' '] + entry
}

/// The entries of a log, each prefixed with its zero-based index.
pub open spec fn numbered(entries: Seq<Seq<char>>) -> Seq<Seq<char>> {
    Seq::new(entries.len(), |i: int| numbered_line(i as nat, entries[i]))
}

/// The rendering of a log: its numbered lines joined by newlines; an empty
/// log renders as the empty text.
pub open spec fn render_log(entries: Seq<Seq<char>>) -> Seq<char> {
    join_lines(numbered(entries))
}

/// The texts held by a vector of strings.
pub open spec fn texts_of(v: Seq<String>) -> Seq<Seq<char>> {
    Seq::new(v.len(), |i: int| v[i]@)
}

proof fn lemma_texts_of_push(v: Seq<String>, s: String)
    ensures
        texts_of(v.push(s)) == texts_of(v).push(s@),
{
    assert(texts_of(v.push(s)) =~= texts_of(v).push(s@));
}

/// An ordered sequence of event descriptions. `add` leaves the log it is
/// called on as it was and returns a longer one.
pub struct HistoryLog {
    entries: Vec<String>,
}

impl View for HistoryLog {
    type V = Seq<Seq<char>>;

    closed spec fn view(&self) -> Seq<Seq<char>> {
        texts_of(self.entries@)
    }
}

impl HistoryLog {
    /// The empty log.
    pub fn new() -> (r: HistoryLog)
        ensures
            r@ == Seq::<Seq<char>>::empty(),
    {
        let r = HistoryLog { entries: Vec::new() };
        assert(r@ =~= Seq::<Seq<char>>::empty());
        r
    }

    /// A new log holding this log's entries followed by `event`.
    pub fn add(&self, event: &str) -> (r: HistoryLog)
        ensures
            r@ == self@.push(event@),
    {
        let mut entries: Vec<String> = Vec::new();
        let n = self.entries.len();
        let mut i: usize = 0;
        while i < n
            invariant
                n == self.entries@.len(),
                i <= n,
                texts_of(entries@) =~= self@.subrange(0, i as int),
            decreases n - i,
        {
            let e = self.entries[i].clone();
            proof {
                lemma_texts_of_push(entries@, e);
                assert(self@.subrange(0, i + 1) =~= self@.subrange(0, i as int).push(e@));
            }
            entries.push(e);
            i += 1;
        }
        let e = String::from_str(event);
        proof {
            lemma_texts_of_push(entries@, e);
            assert(self@.subrange(0, n as int) =~= self@);
        }
        entries.push(e);
        let r = HistoryLog { entries };
        assert(r@ =~= self@.push(event@));
        r
    }

    /// The number of entries.
    pub fn len(&self) -> (r: usize)
        ensures
            r == self@.len(),
    {
        self.entries.len()
    }

    /// Every entry as `"<index> -> <entry>"`, one per line, indices from 0.
    pub fn render(&self) -> (r: String)
        ensures
            r@ == render_log(self@),
    {
        let ghost lines = numbered(self@);
        let mut r = String::new();
        let n = self.entries.len();
        let mut i: usize = 0;
        while i < n
            invariant
                n == self.entries@.len(),
                i <= n,
                lines == numbered(self@),
                r@ == join_lines(lines.take(i as int)),
            decreases n - i,
        {
            if i > 0 {
                r.append("\n");
            }
            let index = decimal_string(i);
            r.append(index.as_str());
            r.append(" -> ");
            r.append(self.entries[i].as_str());
            proof {
                reveal_strlit("\n");
                reveal_strlit(" -> ");
                let next = lines.take(i + 1);
                assert(next.drop_last() =~= lines.take(i as int));
                assert(next.last() == numbered_line(i as nat, self@[i as int]));
                if i == 0 {
                    assert(r@ =~= next[0]);
                } else {
                    assert(r@ =~= join_lines(next.drop_last()) + seq!['\n'] + next.last());
                }
            }
            i += 1;
        }
        assert(lines.take(n as int) =~= lines);
        r
    }
}

} // verus!
