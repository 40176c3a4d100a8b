//! Putting texts together.

use vstd::prelude::*;
use vstd::string::StringExecFns;

verus! {

/// The texts that a list of strings holds, in order.
pub open spec fn texts(lines: Seq<String>) -> Seq<Seq<char>> {
    Seq::new(lines.len(), |i: int| lines[i]@)
}

/// `head` followed by `tail`.
pub fn join2(head: &str, tail: &str) -> (joined: String)
    ensures
        joined@ == head@ + tail@,
{
    let mut joined = String::from_str(head);
    joined.append(tail);
    joined
}

/// `first`, `second` and `third`, one after the other.
pub fn join3(first: &str, second: &str, third: &str) -> (joined: String)
    ensures
        joined@ == first@ + second@ + third@,
{
    let mut joined = String::from_str(first);
    joined.append(second);
    joined.append(third);
    joined
}

/// Four texts, one after the other.
pub fn join4(first: &str, second: &str, third: &str, fourth: &str) -> (joined: String)
    ensures
        joined@ == first@ + second@ + third@ + fourth@,
{
    let mut joined = String::from_str(first);
    joined.append(second);
    joined.append(third);
    joined.append(fourth);
    joined
}

/// Adds `line` at the end of `lines`.
pub fn push_line(lines: &mut Vec<String>, line: String)
    ensures
        texts(final(lines)@) == texts(old(lines)@).push(line@),
{
    lines.push(line);
    assert(texts(lines@) =~= texts(old(lines)@).push(line@));
}

} // verus!
