//! The response generator that the window uses by default, and the joining
//! of recent responses into the context string handed to a generator.

use vstd::prelude::*;

verus! {

/// Text that starts every echoed response.
pub const RESPONSE_PREFIX: &'static str = "AI: ";

/// The two kinds of failure that a send can meet.
#[derive(Clone, Copy, Debug, PartialEq, Eq, Structural)]
pub enum ChatError {
    /// The text generator failed or threw.
    GenerationError,
    /// A durable read or write of the history failed.
    StoreError,
}

/// The echoed response to a draft: the prefix, then the draft verbatim.
pub open spec fn echo_spec(draft: Seq<char>) -> Seq<char> {
    RESPONSE_PREFIX@ + draft
}

/// The views of a sequence of strings.
pub open spec fn texts(v: Seq<String>) -> Seq<Seq<char>> {
    v.map_values(|s: String| s@)
}

/// The texts joined in order, one space between neighbours.
pub open spec fn join_spec(parts: Seq<Seq<char>>) -> Seq<char>
    decreases parts.len(),
{
    if parts.len() == 0 {
        Seq::empty()
    } else if parts.len() == 1 {
        parts[0]
    } else {
        join_spec(parts.drop_last()) + " "@ + parts.last()
    }
}

/// Answers a draft by echoing it back after the response prefix.
pub fn generate_echo(draft: &str) -> (r: String)
    ensures
        r@ == echo_spec(draft@),
{
    let mut r = String::from_str(RESPONSE_PREFIX);
    r.append(draft);
    r
}

/// Joins the texts in order into one string, separated by single spaces.
pub fn join_context(parts: &Vec<String>) -> (r: String)
    ensures
        r@ == join_spec(texts(parts@)),
{
    let mut r = String::new();
    let mut i: usize = 0;
    while i < parts.len()
        invariant
            i <= parts@.len(),
            r@ == join_spec(texts(parts@).take(i as int)),
        decreases parts@.len() - i,
    {
        proof {
            let t = texts(parts@);
            assert(t.take(i + 1).drop_last() =~= t.take(i as int));
            assert(t.take(i + 1).last() == parts@[i as int]@);
        }
        if i > 0 {
            r.append(" ");
        }
        r.append(parts[i].as_str());
        i = i + 1;
    }
    assert(texts(parts@).take(i as int) =~= texts(parts@));
    r
}

} // verus!
