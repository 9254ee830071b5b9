//! Logs that keep only their newest entries.

use vstd::prelude::*;

verus! {

/// The newest `max` elements of `s` (all of them when there are fewer).
pub open spec fn keep_newest<A>(s: Seq<A>, max: int) -> Seq<A> {
    if s.len() > max {
        s.subrange(s.len() - max, s.len() as int)
    } else {
        s
    }
}

/// Drop the oldest elements of `v` until at most `max` remain.
pub fn trim_oldest<A>(v: &mut Vec<A>, max: usize)
    ensures
        final(v)@ == keep_newest(old(v)@, max as int),
{
    let ghost orig = v@;
    assert(v@ =~= orig.subrange(0, orig.len() as int));
    while v.len() > max
        invariant
            v.len() <= orig.len(),
            v@ == orig.subrange(orig.len() - v.len(), orig.len() as int),
            orig.len() > max ==> v.len() >= max,
            orig.len() <= max ==> v.len() == orig.len(),
        decreases v.len(),
    {
        let _oldest = v.remove(0);
        assert(v@ =~= orig.subrange(orig.len() - v.len(), orig.len() as int));
    }
    assert(orig.len() <= max ==> v@ =~= orig);
}

/// A bounded log never exceeds its bound, keeps its newest element, and is
/// left whole while within the bound.
pub proof fn law_keep_newest_bounded<A>(s: Seq<A>, max: int)
    requires
        max >= 1,
    ensures
        keep_newest(s, max).len() <= max,
        s.len() > 0 ==> keep_newest(s, max).last() == s.last(),
        s.len() <= max ==> keep_newest(s, max) == s,
        forall|i: int| 0 <= i < keep_newest(s, max).len() ==> #[trigger] keep_newest(s, max)[i]
            == s[s.len() - keep_newest(s, max).len() + i],
{
}

} // verus!
