//! Reading a page back: which text stands where on it.

use vstd::prelude::*;

verus! {

/// Somewhere on the page, `value` stands between `label` and `next`.
pub open spec fn reads(page: Seq<char>, label: Seq<char>, value: Seq<char>, next: Seq<char>) -> bool {
    exists|before: Seq<char>, after: Seq<char>|
        page == #[trigger] (before + (label + value + next) + after)
}

/// The first `n` pieces, end to end.
pub open spec fn joined(pieces: Seq<Seq<char>>, n: nat) -> Seq<char>
    decreases n,
{
    if n == 0 {
        seq![]
    } else {
        joined(pieces, (n - 1) as nat) + pieces[n - 1]
    }
}

/// The page holds these pieces, end to end, and nothing else.
pub open spec fn made_of(page: Seq<char>, pieces: Seq<Seq<char>>) -> bool {
    page == joined(pieces, pieces.len())
}

proof fn lemma_piece(pieces: Seq<Seq<char>>, i: int, n: nat) -> (after: Seq<char>)
    requires
        0 <= i,
        i + 3 <= n <= pieces.len(),
    ensures
        joined(pieces, n) == joined(pieces, i as nat) + (pieces[i] + pieces[i + 1] + pieces[i + 2])
            + after,
    decreases n,
{
    let middle = pieces[i] + pieces[i + 1] + pieces[i + 2];
    if n == i + 3 {
        reveal_with_fuel(joined, 4);
        assert(joined(pieces, n) =~= joined(pieces, i as nat) + middle + seq![]);
        seq![]
    } else {
        let before = lemma_piece(pieces, i, (n - 1) as nat);
        let after = before + pieces[n - 1];
        assert(joined(pieces, n) =~= joined(pieces, i as nat) + middle + after);
        after
    }
}

/// On a page that is made of pieces, each stands between its neighbours.
pub proof fn lemma_pieces(pieces: Seq<Seq<char>>)
    ensures
        forall|i: int|
            #![trigger pieces[i]]
            0 <= i && i + 3 <= pieces.len() ==> reads(
                joined(pieces, pieces.len()),
                pieces[i],
                pieces[i + 1],
                pieces[i + 2],
            ),
{
    assert forall|i: int| #![trigger pieces[i]] 0 <= i && i + 3 <= pieces.len() implies reads(
        joined(pieces, pieces.len()),
        pieces[i],
        pieces[i + 1],
        pieces[i + 2],
    ) by {
        let after = lemma_piece(pieces, i, pieces.len());
        assert(joined(pieces, pieces.len()) == joined(pieces, i as nat) + (pieces[i] + pieces[i + 1]
            + pieces[i + 2]) + after);
    }
}

/// A page that is made of lines holds each of them.
pub open spec fn holds(page: Seq<char>, line: Seq<char>) -> bool {
    exists|before: Seq<char>, after: Seq<char>| page == #[trigger] (before + line + after)
}

/// What a page holds, it still holds if more follows.
pub proof fn lemma_still_holds(page: Seq<char>, more: Seq<char>, line: Seq<char>)
    requires
        holds(page, line),
    ensures
        holds(page + more, line),
{
    let (before, after) = choose|before: Seq<char>, after: Seq<char>|
        page == #[trigger] (before + line + after);
    assert(page + more =~= before + line + (after + more));
}

/// What a page holds, it still holds behind another text.
pub proof fn lemma_holds_behind(front: Seq<char>, page: Seq<char>, line: Seq<char>)
    requires
        holds(page, line),
    ensures
        holds(front + page, line),
{
    let (before, after) = choose|before: Seq<char>, after: Seq<char>|
        page == #[trigger] (before + line + after);
    assert(front + page =~= (front + before) + line + after);
}

/// A page holds the line that it ends with.
pub proof fn lemma_holds_last(front: Seq<char>, line: Seq<char>)
    ensures
        holds(front + line, line),
{
    assert(front + line =~= front + line + seq![]);
}

} // verus!
