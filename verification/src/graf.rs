use vstd::prelude::*;
use crate::losowanie::kostka_z_ziarna;
use crate::losowanie::losuj;

verus! {

/// A complete directed weighted graph over `liczba_wezlow` cities:
/// `macierz[i][j]` is the cost of travelling from city `i` to city `j`.
/// The diagonal is conventionally zero but nothing enforces that, and the
/// matrix may be asymmetric.
pub struct Graf {
    pub liczba_wezlow: usize,
    pub macierz: Vec<Vec<usize>>,
}

/// The larger of two integers.
pub open spec fn maks2(a: int, b: int) -> int {
    if a >= b { a } else { b }
}

/// Maximum of the first `k` entries of a row (0 for an empty prefix).
pub open spec fn maks_wiersza(w: Seq<usize>, k: int) -> int
    decreases k,
{
    if k <= 0 {
        0
    } else {
        maks2(maks_wiersza(w, k - 1), w[k - 1] as int)
    }
}

/// Maximum entry over the first `k` rows of a matrix.
pub open spec fn maks_macierzy(m: Seq<Vec<usize>>, k: int) -> int
    decreases k,
{
    if k <= 0 {
        0
    } else {
        maks2(maks_macierzy(m, k - 1), maks_wiersza(m[k - 1]@, m[k - 1]@.len() as int))
    }
}

impl Graf {
    /// The matrix is square, with one row and one column per city.
    pub open spec fn wf(&self) -> bool {
        &&& self.macierz@.len() == self.liczba_wezlow
        &&& forall|i: int|
            0 <= i < self.liczba_wezlow ==> (#[trigger] self.macierz@[i])@.len()
                == self.liczba_wezlow
    }

    /// The cost of the directed edge from city `i` to city `j`.
    pub open spec fn koszt(&self, i: int, j: int) -> int {
        self.macierz@[i]@[j] as int
    }

    /// The largest cost in the whole matrix (0 for an empty graph).
    pub open spec fn maks_koszt(&self) -> int {
        maks_macierzy(self.macierz@, self.macierz@.len() as int)
    }

    /// Constant-time cost lookup; indices must be in range.
    pub fn koszt_krawedzi(&self, i: usize, j: usize) -> (k: usize)
        requires
            self.wf(),
            i < self.liczba_wezlow,
            j < self.liczba_wezlow,
        ensures
            k as int == self.koszt(i as int, j as int),
    {
        self.macierz[i][j]
    }

    /// A random graph over `rozmiar` cities: every edge cost is drawn
    /// uniformly from the half-open range `[dolny, gorny)` by a generator
    /// seeded with `ziarno`, so equal seeds give equal graphs.
    pub fn losowy(rozmiar: usize, dolny: usize, gorny: usize, ziarno: u64) -> (g: Graf)
        requires
            dolny < gorny,
        ensures
            g.wf(),
            g.liczba_wezlow == rozmiar,
            forall|i: int, j: int|
                0 <= i < rozmiar && 0 <= j < rozmiar ==> dolny <= #[trigger] g.koszt(i, j) < gorny,
    {
        let mut kostka = kostka_z_ziarna(ziarno);
        let mut macierz: Vec<Vec<usize>> = Vec::new();
        let mut i: usize = 0;
        while i < rozmiar
            invariant
                dolny < gorny,
                i <= rozmiar,
                macierz@.len() == i,
                forall|a: int|
                    0 <= a < i ==> (#[trigger] macierz@[a])@.len() == rozmiar,
                forall|a: int, b: int|
                    0 <= a < i && 0 <= b < rozmiar ==> dolny <= #[trigger] (macierz@[a])@[b]
                        < gorny,
            decreases rozmiar - i,
        {
            let mut wiersz: Vec<usize> = Vec::new();
            let mut j: usize = 0;
            while j < rozmiar
                invariant
                    dolny < gorny,
                    j <= rozmiar,
                    wiersz@.len() == j,
                    forall|b: int| 0 <= b < j ==> dolny <= #[trigger] wiersz@[b] < gorny,
                decreases rozmiar - j,
            {
                let wartosc = losuj(&mut kostka, dolny as u64, gorny as u64);
                wiersz.push(wartosc as usize);
                j = j + 1;
            }
            macierz.push(wiersz);
            i = i + 1;
        }
        Graf { liczba_wezlow: rozmiar, macierz }
    }
}

proof fn lemma_maks_wiersza(w: Seq<usize>, j: int, k: int)
    requires
        0 <= j < k <= w.len(),
    ensures
        w[j] as int <= maks_wiersza(w, k),
        decreases k,
{
    if j < k - 1 {
        lemma_maks_wiersza(w, j, k - 1);
    }
}

proof fn lemma_maks_macierzy(m: Seq<Vec<usize>>, i: int, k: int)
    requires
        0 <= i < k <= m.len(),
    ensures
        maks_wiersza(m[i]@, m[i]@.len() as int) <= maks_macierzy(m, k),
    decreases k,
{
    if i < k - 1 {
        lemma_maks_macierzy(m, i, k - 1);
    }
}

/// Every in-range edge cost is bounded by the matrix maximum.
pub proof fn lemma_koszt_ponizej_maks(graf: &Graf, i: int, j: int)
    requires
        graf.wf(),
        0 <= i < graf.liczba_wezlow,
        0 <= j < graf.liczba_wezlow,
    ensures
        graf.koszt(i, j) <= graf.maks_koszt(),
{
    lemma_maks_wiersza(graf.macierz@[i]@, j, graf.liczba_wezlow as int);
    lemma_maks_macierzy(graf.macierz@, i, graf.macierz@.len() as int);
}

/// The matrix maximum is never negative.
pub proof fn lemma_maks_koszt_nieujemny(graf: &Graf)
    ensures
        graf.maks_koszt() >= 0,
{
    lemma_maks_macierzy_nieujemna(graf.macierz@, graf.macierz@.len() as int);
}

proof fn lemma_maks_macierzy_nieujemna(m: Seq<Vec<usize>>, k: int)
    ensures
        maks_macierzy(m, k) >= 0,
    decreases k,
{
    if k > 0 {
        lemma_maks_macierzy_nieujemna(m, k - 1);
    }
}

} // verus!
