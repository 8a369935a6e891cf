//! Joining pieces of text with single spaces.

use vstd::prelude::*;
use vstd::string::StringExecFns;

verus! {

/// The texts of a run of strings, in order.
pub open spec fn texts(pieces: Seq<String>) -> Seq<Seq<char>> {
    Seq::new(pieces.len(), |i: int| pieces[i]@)
}

/// The pieces in order with one space between neighbours: nothing before
/// the first, nothing after the last, and the empty text for no piece.
pub open spec fn joined(pieces: Seq<Seq<char>>) -> Seq<char>
    decreases pieces.len(),
{
    if pieces.len() == 0 {
        Seq::empty()
    } else if pieces.len() == 1 {
        pieces[0]
    } else {
        joined(pieces.drop_last()) + seq![' '] + pieces.last()
    }
}

/// Joins the pieces with single spaces.
pub fn join(pieces: &Vec<String>) -> (text: String)
    ensures
        text@ == joined(texts(pieces@)),
{
    let mut text = String::new();
    let mut i: usize = 0;
    while i < pieces.len()
        invariant
            i <= pieces.len(),
            text@ == joined(texts(pieces@).take(i as int)),
        decreases pieces.len() - i,
    {
        proof {
            reveal_strlit(" ");
            let all = texts(pieces@);
            assert(all.take(i + 1).drop_last() =~= all.take(i as int));
        }
        if i > 0 {
            text.append(" ");
        }
        text.append(pieces[i].as_str());
        i += 1;
    }
    assert(texts(pieces@).take(i as int) =~= texts(pieces@));
    text
}

/// Joining one more piece puts a space before it, unless it is the first.
pub proof fn lemma_joined_push(pieces: Seq<Seq<char>>, last: Seq<char>)
    ensures
        joined(pieces.push(last)) == if pieces.len() == 0 {
            last
        } else {
            joined(pieces) + seq![' '] + last
        },
{
    assert(pieces.push(last).drop_last() =~= pieces);
}

} // verus!
