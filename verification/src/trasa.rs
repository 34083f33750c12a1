use vstd::prelude::*;
use crate::blad::Blad;
use crate::graf::Graf;
use crate::graf::lemma_koszt_ponizej_maks;

verus! {

/// No city occurs twice in the sequence.
pub open spec fn bez_powtorzen(s: Seq<usize>) -> bool {
    forall|a: int, b: int| 0 <= a < b < s.len() ==> s[a] != s[b]
}

/// A candidate tour is valid when it names every one of the `n` cities
/// exactly once: length `n` and no repetition.
pub open spec fn trasa_poprawna(n: int, s: Seq<usize>) -> bool {
    &&& s.len() == n
    &&& bez_powtorzen(s)
}

/// Every entry of the sequence is a city index below `n`.
pub open spec fn miasta_w_zakresie(n: int, s: Seq<usize>) -> bool {
    forall|a: int| 0 <= a < s.len() ==> (#[trigger] s[a]) < n
}

/// Sum of the first `k` edges walked along the sequence:
/// `cost(s[0],s[1]) + ... + cost(s[k-1],s[k])`.
pub open spec fn suma_czesci(graf: &Graf, s: Seq<usize>, k: int) -> int
    decreases k,
{
    if k <= 0 {
        0
    } else {
        suma_czesci(graf, s, k - 1) + graf.koszt(s[k - 1] as int, s[k] as int)
    }
}

/// Total cyclic cost of a tour: the path along the sequence plus the closing
/// edge from the last city back to the first.
pub open spec fn suma_trasy(graf: &Graf, s: Seq<usize>) -> int {
    suma_czesci(graf, s, s.len() - 1) + graf.koszt(s[s.len() - 1] as int, s[0] as int)
}

/// Partial edge sums only grow along the sequence.
pub proof fn lemma_suma_czesci_monotoniczna(graf: &Graf, s: Seq<usize>, k1: int, k2: int)
    requires
        0 <= k1 <= k2,
        k2 < s.len(),
        miasta_w_zakresie(graf.liczba_wezlow as int, s),
    ensures
        suma_czesci(graf, s, k1) <= suma_czesci(graf, s, k2),
    decreases k2 - k1,
{
    if k1 < k2 {
        lemma_suma_czesci_monotoniczna(graf, s, k1, k2 - 1);
    }
}

/// Partial edge sums are never negative.
pub proof fn lemma_suma_czesci_nieujemna(graf: &Graf, s: Seq<usize>, k: int)
    ensures
        suma_czesci(graf, s, k) >= 0,
    decreases k,
{
    if k > 0 {
        lemma_suma_czesci_nieujemna(graf, s, k - 1);
    }
}

/// Each of the first `k` edges costs at most the matrix maximum, so the
/// partial sum is at most `k` times the maximum.
pub proof fn lemma_suma_czesci_ograniczona(graf: &Graf, s: Seq<usize>, k: int)
    requires
        graf.wf(),
        0 <= k < s.len(),
        miasta_w_zakresie(graf.liczba_wezlow as int, s),
        s.len() <= graf.liczba_wezlow,
    ensures
        suma_czesci(graf, s, k) <= k * graf.maks_koszt(),
    decreases k,
{
    if k > 0 {
        lemma_suma_czesci_ograniczona(graf, s, k - 1);
        lemma_koszt_ponizej_maks(graf, s[k - 1] as int, s[k] as int);
        assert((k - 1) * graf.maks_koszt() + graf.maks_koszt() == k * graf.maks_koszt())
            by (nonlinear_arith);
    }
}

/// The total cyclic cost of any in-range tour of length `n` is at most
/// `n` times the matrix maximum.
pub proof fn lemma_suma_trasy_ograniczona(graf: &Graf, s: Seq<usize>)
    requires
        graf.wf(),
        1 <= s.len() <= graf.liczba_wezlow,
        miasta_w_zakresie(graf.liczba_wezlow as int, s),
    ensures
        0 <= suma_trasy(graf, s) <= s.len() * graf.maks_koszt(),
    decreases s.len(),
{
    let k = s.len() - 1;
    lemma_suma_czesci_nieujemna(graf, s, k as int);
    lemma_suma_czesci_ograniczona(graf, s, k as int);
    lemma_koszt_ponizej_maks(graf, s[k as int] as int, s[0] as int);
    assert(k * graf.maks_koszt() + graf.maks_koszt() == s.len() * graf.maks_koszt())
        by (nonlinear_arith)
        requires k + 1 == s.len();
}

/// Computes the total cyclic cost of a candidate tour: the sum of the costs
/// of consecutive edges plus the closing edge back to the first city. The
/// tour must already be well formed; this is the unchecked hot path and the
/// guard runs separately.
pub fn funkcja_celu(graf: &Graf, miasta: &Vec<usize>) -> (suma: usize)
    requires
        graf.wf(),
        graf.liczba_wezlow >= 1,
        miasta@.len() == graf.liczba_wezlow,
        miasta_w_zakresie(graf.liczba_wezlow as int, miasta@),
        suma_trasy(graf, miasta@) <= usize::MAX,
    ensures
        suma as int == suma_trasy(graf, miasta@),
{
    let n = graf.liczba_wezlow;
    let mut suma: usize = 0;
    let mut i: usize = 0;

    while i < n - 1
        invariant
            graf.wf(),
            n == graf.liczba_wezlow,
            n >= 1,
            miasta@.len() == n,
            miasta_w_zakresie(n as int, miasta@),
            suma_trasy(graf, miasta@) <= usize::MAX,
            0 <= i <= n - 1,
            suma as int == suma_czesci(graf, miasta@, i as int),
        decreases n - 1 - i,
    {
        proof {
            lemma_suma_czesci_monotoniczna(graf, miasta@, i as int + 1, n as int - 1);
        }
        suma = suma + graf.koszt_krawedzi(miasta[i], miasta[i + 1]);
        i = i + 1;
    }

    suma + graf.koszt_krawedzi(miasta[n - 1], miasta[0])
}

/// Validates that a candidate tour is a permutation of all cities: it must
/// name as many cities as the graph has, with no repetition. Returns which
/// check failed; it reads nothing of the graph but its node count.
pub fn straznik(graf: &Graf, miasta: &Vec<usize>) -> (w: Result<(), Blad>)
    ensures
        w matches Ok(()) <==> trasa_poprawna(graf.liczba_wezlow as int, miasta@),
        w matches Err(e) ==> {
            &&& (e == Blad::ZlaDlugoscTrasy <==> miasta@.len() != graf.liczba_wezlow)
            &&& (miasta@.len() == graf.liczba_wezlow ==> e == Blad::PowtorzoneMiasto)
        },
{
    if miasta.len() != graf.liczba_wezlow {
        return Err(Blad::ZlaDlugoscTrasy);
    }

    let mut b: usize = 0;
    while b < miasta.len()
        invariant
            miasta@.len() == graf.liczba_wezlow,
            forall|x: int, y: int| 0 <= x < y < b ==> miasta@[x] != miasta@[y],
            b <= miasta@.len(),
        decreases miasta@.len() - b,
    {
        let mut a: usize = 0;
        while a < b
            invariant
                miasta@.len() == graf.liczba_wezlow,
                a <= b < miasta@.len(),
                forall|x: int| 0 <= x < a ==> miasta@[x] != miasta@[b as int],
            decreases b - a,
        {
            if miasta[a] == miasta[b] {
                return Err(Blad::PowtorzoneMiasto);
            }
            a = a + 1;
        }
        b = b + 1;
    }
    Ok(())
}

} // verus!
