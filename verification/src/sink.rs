//! The character sink: text goes out as one transmission per character, in order.
//!
//! The firmware takes one character code per call. Nothing here makes that call:
//! every operation hands back the codes to transmit, first to last, and the caller
//! passes each of them to the firmware once, in that order.

use vstd::prelude::*;

verus! {

/// The codes that a text puts on the wire: the scalar value of each character, in the
/// text's own order.
pub open spec fn codes(text: Seq<char>) -> Seq<usize> {
    Seq::new(text.len(), |i: int| text[i] as usize)
}

/// The console's output side. It holds nothing between two writes.
#[derive(Clone, Copy, PartialEq, Eq, Structural, Debug)]
pub struct Stdout;

impl Stdout {
    /// The transmissions that writing `s` consists of: one per character, first to
    /// last, none left out and none added.
    pub fn write_str(&mut self, s: &str) -> (calls: Vec<usize>)
        ensures
            calls@ == codes(s@),
            calls@.len() == s@.len(),
            forall|i: int| 0 <= i < s@.len() ==> calls@[i] == s@[i] as usize,
    {
        let mut calls: Vec<usize> = Vec::new();
        for c in iter: s.chars()
            invariant
                iter.seq() == s@,
                calls@ == codes(s@.take(iter.index() as int)),
        {
            let ghost done = calls@;
            calls.push(c as usize);
            proof {
                let i = iter.index() as int;
                assert(codes(s@.take(i + 1)) =~= done.push(c as usize));
            }
        }
        proof {
            assert(s@.take(s@.len() as int) =~= s@);
        }
        calls
    }
}

/// The transmissions that show `text` as it is: no newline, no level, no color.
pub fn print(text: &str) -> (calls: Vec<usize>)
    ensures
        calls@ == codes(text@),
{
    let mut out = Stdout;
    out.write_str(text)
}

/// The transmissions that show `text` and end the line after it.
pub fn println(text: &str) -> (calls: Vec<usize>)
    ensures
        calls@ == codes(text@.push('\n')),
        calls@ == codes(text@).push('\n' as usize),
{
    let mut calls = print(text);
    calls.push('\n' as usize);
    assert(calls@ =~= codes(text@.push('\n')));
    calls
}

/// Writing two texts one after the other transmits what writing their concatenation
/// transmits: nothing is dropped, added or reordered where they meet.
pub proof fn lemma_codes_concat(first: Seq<char>, second: Seq<char>)
    ensures
        codes(first + second) == codes(first) + codes(second),
{
    assert(codes(first + second) =~= codes(first) + codes(second));
}

/// Two lines printed one after the other come out as the first text, a newline, the
/// second text and a newline, with nothing between or out of place.
pub proof fn lemma_println_twice(first: Seq<char>, second: Seq<char>)
    ensures
        codes(first.push('\n')) + codes(second.push('\n')) == codes(
            first + seq!['\n'] + second + seq!['\n'],
        ),
{
    assert(codes(first.push('\n')) + codes(second.push('\n')) =~= codes(
        first + seq!['\n'] + second + seq!['\n'],
    ));
}

} // verus!
