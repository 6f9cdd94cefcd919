//! Vocabulary for texts: what a string holds, and what it is for one text to
//! appear inside another.

use vstd::prelude::*;

verus! {

/// The text inside an optional string.
pub open spec fn text_of(value: Option<String>) -> Option<Seq<char>> {
    match value {
        Some(text) => Some(text@),
        None => None,
    }
}

/// The texts inside a reply, on either side.
pub open spec fn reply_text(reply: Result<String, String>) -> Result<Seq<char>, Seq<char>> {
    match reply {
        Ok(text) => Ok(text@),
        Err(text) => Err(text@),
    }
}

/// `part` stands in `text`, unbroken, starting at position `at`.
pub open spec fn occurs_at(text: Seq<char>, part: Seq<char>, at: int) -> bool {
    &&& 0 <= at
    &&& at + part.len() <= text.len()
    &&& text.subrange(at, at + part.len()) == part
}

/// `part` stands somewhere in `text`, unbroken.
pub open spec fn occurs_in(text: Seq<char>, part: Seq<char>) -> bool {
    exists|at: int| occurs_at(text, part, at)
}

/// The middle of a three-part text occurs in it, right after the first part.
pub proof fn lemma_middle_occurs(before: Seq<char>, middle: Seq<char>, after: Seq<char>)
    ensures
        occurs_at(before + middle + after, middle, before.len() as int),
        occurs_in(before + middle + after, middle),
{
    let whole = before + middle + after;
    let at = before.len() as int;
    assert(whole.subrange(at, at + middle.len()) =~= middle);
    assert(occurs_at(whole, middle, at));
}

/// The end of a two-part text occurs in it, right after the first part.
pub proof fn lemma_tail_occurs(before: Seq<char>, tail: Seq<char>)
    ensures
        occurs_at(before + tail, tail, before.len() as int),
        occurs_in(before + tail, tail),
{
    let whole = before + tail;
    let at = before.len() as int;
    assert(whole.subrange(at, at + tail.len()) =~= tail);
    assert(occurs_at(whole, tail, at));
}

} // verus!
