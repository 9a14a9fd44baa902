//! What holds of the sentinel removal on every statement sequence.
use vstd::prelude::*;

use crate::rewrite::{lemma_strip_push, strip_sentinels};
use crate::syntax::{is_sentinel, Stmt};

verus! {

/// The number of placeholder statements `async move {};` in `s`.
pub open spec fn count_sentinels(s: Seq<Stmt>) -> nat
    decreases s.len(),
{
    if s.len() == 0 {
        0
    } else if is_sentinel(s.last()) {
        count_sentinels(s.drop_last()) + 1
    } else {
        count_sentinels(s.drop_last())
    }
}

/// Removing the placeholders leaves none of them, and removes nothing else:
/// what is left is as long as `s` less its placeholders.
pub proof fn lemma_sentinels_erased(s: Seq<Stmt>)
    ensures
        forall|i: int|
            0 <= i < strip_sentinels(s).len() ==> !is_sentinel(#[trigger] strip_sentinels(s)[i]),
        strip_sentinels(s).len() + count_sentinels(s) == s.len(),
    decreases s.len(),
{
    if s.len() > 0 {
        let p = s.drop_last();
        let x = s.last();
        assert(p.push(x) =~= s);
        lemma_sentinels_erased(p);
        lemma_strip_push(p, x);
    }
}

/// Each statement that is not a placeholder stays, unchanged, at its own index
/// less the placeholders before it: after exactly as many kept statements as
/// precede it in `s`.
pub proof fn lemma_non_sentinel_kept(s: Seq<Stmt>, i: int)
    requires
        0 <= i < s.len(),
        !is_sentinel(s[i]),
    ensures
        strip_sentinels(s.take(i)).len() < strip_sentinels(s).len(),
        strip_sentinels(s)[strip_sentinels(s.take(i)).len() as int] == s[i],
    decreases s.len(),
{
    let p = s.drop_last();
    let x = s.last();
    assert(p.push(x) =~= s);
    lemma_strip_push(p, x);
    if i == s.len() - 1 {
        assert(s.take(i) =~= p);
    } else {
        assert(p.take(i) =~= s.take(i));
        lemma_non_sentinel_kept(p, i);
    }
}

} // verus!
