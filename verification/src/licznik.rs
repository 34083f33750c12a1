use vstd::prelude::*;

verus! {

/// How many entries of the flag sequence are set.
pub open spec fn ile_prawdziwych(s: Seq<bool>) -> nat
    decreases s.len(),
{
    if s.len() == 0 {
        0
    } else {
        (if s.last() {
            1nat
        } else {
            0nat
        }) + ile_prawdziwych(s.drop_last())
    }
}

/// A sequence of set flags has as many set entries as it is long.
pub proof fn lemma_ile_pelna(s: Seq<bool>)
    requires
        forall|j: int| 0 <= j < s.len() ==> s[j],
    ensures
        ile_prawdziwych(s) == s.len(),
    decreases s.len(),
{
    if s.len() > 0 {
        lemma_ile_pelna(s.drop_last());
    }
}

/// Clearing one set flag lowers the count by exactly one.
pub proof fn lemma_ile_po_zgaszeniu(s: Seq<bool>, i: int)
    requires
        0 <= i < s.len(),
        s[i],
    ensures
        ile_prawdziwych(s.update(i, false)) + 1 == ile_prawdziwych(s),
    decreases s.len(),
{
    let z = s.update(i, false);
    if i == s.len() - 1 {
        assert(z.drop_last() =~= s.drop_last());
    } else {
        assert(z.drop_last() =~= s.drop_last().update(i, false));
        lemma_ile_po_zgaszeniu(s.drop_last(), i);
    }
}

/// A positive count names at least one set flag.
pub proof fn lemma_ile_dodatnia(s: Seq<bool>)
    requires
        ile_prawdziwych(s) > 0,
    ensures
        exists|j: int| 0 <= j < s.len() && s[j],
    decreases s.len(),
{
    if s.last() {
        assert(s[s.len() - 1]);
    } else {
        lemma_ile_dodatnia(s.drop_last());
        let j = choose|j: int| 0 <= j < s.drop_last().len() && s.drop_last()[j];
        assert(s[j]);
    }
}

} // verus!
