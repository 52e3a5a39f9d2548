//! The append-only log of responses, with a bounded read-back of the most
//! recent entries.

use vstd::prelude::*;
use crate::response::texts;

verus! {

/// The `n` most recent entries of `rows`, most recent first; all of them
/// where there are fewer than `n`.
pub open spec fn recent_spec(rows: Seq<Seq<char>>, n: nat) -> Seq<Seq<char>> {
    let k = if n < rows.len() { n } else { rows.len() };
    Seq::new(k, |i: int| rows[rows.len() - 1 - i])
}

/// An ordered log of response texts, oldest first. Entries are only ever
/// added at the end.
pub struct HistoryStore {
    rows: Vec<String>,
}

impl View for HistoryStore {
    type V = Seq<Seq<char>>;

    closed spec fn view(&self) -> Seq<Seq<char>> {
        texts(self.rows@)
    }
}

impl HistoryStore {
    /// An empty log.
    pub fn new() -> (r: Self)
        ensures
            r@ == Seq::<Seq<char>>::empty(),
    {
        let r = HistoryStore { rows: Vec::new() };
        assert(r@ =~= Seq::<Seq<char>>::empty());
        r
    }

    /// The number of entries.
    pub fn len(&self) -> (r: usize)
        ensures
            r == self@.len(),
    {
        self.rows.len()
    }

    /// All entries, oldest first.
    pub fn rows(&self) -> (r: &Vec<String>)
        ensures
            texts(r@) == self@,
    {
        &self.rows
    }

    /// Adds one entry at the end.
    pub fn append(&mut self, text: String)
        ensures
            final(self)@ == old(self)@.push(text@),
    {
        let ghost t = text@;
        self.rows.push(text);
        assert(texts(self.rows@) =~= old(self)@.push(t));
    }

    /// The `n` most recent entries, most recent first.
    pub fn read_recent(&self, n: usize) -> (r: Vec<String>)
        ensures
            texts(r@) == recent_spec(self@, n as nat),
    {
        let len = self.rows.len();
        let k: usize = if n < len { n } else { len };
        let mut r: Vec<String> = Vec::new();
        let mut i: usize = 0;
        while i < k
            invariant
                k <= len,
                len == self.rows@.len(),
                k == (if (n as nat) < self@.len() { n as nat } else { self@.len() }),
                i <= k,
                r@.len() == i,
                forall|j: int| 0 <= j < i ==> #[trigger] r@[j]@ == self.rows@[len - 1 - j]@,
            decreases k - i,
        {
            r.push(self.rows[len - 1 - i].clone());
            i = i + 1;
        }
        assert(texts(r@) =~= recent_spec(self@, n as nat));
        r
    }
}

/// Reading back zero entries gives nothing, whatever the log holds.
pub proof fn lemma_read_recent_zero(rows: Seq<Seq<char>>)
    ensures
        recent_spec(rows, 0) == Seq::<Seq<char>>::empty(),
{
    assert(recent_spec(rows, 0) =~= Seq::<Seq<char>>::empty());
}

/// Reading back one entry right after an append gives exactly the text
/// that was appended.
pub proof fn lemma_append_then_read_one(rows: Seq<Seq<char>>, text: Seq<char>)
    ensures
        recent_spec(rows.push(text), 1) == seq![text],
{
    assert(recent_spec(rows.push(text), 1) =~= seq![text]);
}

} // verus!
