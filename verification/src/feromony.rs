use vstd::prelude::*;

verus! {

/// Trail strengths are fixed-point scalars with this denominator: a cell
/// value `v` stands for the fraction `v / SKALA` of the maximal trail, so
/// the closed interval `[0, SKALA]` models the scalar range `[0.0, 1.0]`.
pub const SKALA: u64 = 1_000_000;

/// The shared mutable trail-strength matrix of one search run: one
/// non-negative scalar per directed edge, clamped into `[0, SKALA]` after
/// every write. Deposit and evaporate are the only mutation paths; there is
/// no raw cell access.
pub struct Feromony {
    pub liczba_wezlow: usize,
    pub macierz: Vec<Vec<u64>>,
}

impl Feromony {
    /// The matrix is square and every cell is clamped into `[0, SKALA]`.
    pub open spec fn wf(&self) -> bool {
        &&& self.macierz@.len() == self.liczba_wezlow
        &&& forall|i: int|
            0 <= i < self.liczba_wezlow ==> (#[trigger] self.macierz@[i])@.len()
                == self.liczba_wezlow
        &&& forall|i: int, j: int|
            0 <= i < self.liczba_wezlow && 0 <= j < self.liczba_wezlow ==> #[trigger] self.poziom(
                i,
                j,
            ) <= SKALA
    }

    /// The trail strength on the directed edge from `i` to `j`.
    pub open spec fn poziom(&self, i: int, j: int) -> int {
        self.macierz@[i]@[j] as int
    }

    /// A fresh all-zero matrix for a run over `n` cities.
    pub fn nowe(n: usize) -> (f: Feromony)
        ensures
            f.wf(),
            f.liczba_wezlow == n,
            forall|i: int, j: int| 0 <= i < n && 0 <= j < n ==> #[trigger] f.poziom(i, j) == 0,
    {
        let wiersz: Vec<u64> = vec![0u64; n];
        let macierz: Vec<Vec<u64>> = vec![wiersz; n];
        Feromony { liczba_wezlow: n, macierz }
    }

    /// Trail lookup; indices must be in range.
    pub fn odczyt(&self, i: usize, j: usize) -> (p: u64)
        requires
            self.wf(),
            i < self.liczba_wezlow,
            j < self.liczba_wezlow,
        ensures
            p as int == self.poziom(i as int, j as int),
            p <= SKALA,
    {
        self.macierz[i][j]
    }

    /// Adds `kwota` to one edge's trail and clamps the result to at most
    /// `SKALA`: additive reinforcement never leaves a cell above the maximal
    /// trail, and no other cell moves.
    pub fn zostaw(&mut self, i: usize, j: usize, kwota: u64)
        requires
            old(self).wf(),
            i < old(self).liczba_wezlow,
            j < old(self).liczba_wezlow,
        ensures
            final(self).wf(),
            final(self).liczba_wezlow == old(self).liczba_wezlow,
            final(self).poziom(i as int, j as int) == if old(self).poziom(i as int, j as int)
                + kwota >= SKALA {
                SKALA as int
            } else {
                old(self).poziom(i as int, j as int) + kwota
            },
            forall|a: int, b: int|
                0 <= a < old(self).liczba_wezlow && 0 <= b < old(self).liczba_wezlow && !(a == i
                    && b == j) ==> #[trigger] final(self).poziom(a, b) == old(self).poziom(a, b),
    {
        proof {
            assert(old(self).poziom(i as int, j as int) <= SKALA);
        }
        let obecny: u64 = self.macierz[i][j];
        let nowy: u64 = if kwota >= SKALA {
            SKALA
        } else if obecny + kwota >= SKALA {
            SKALA
        } else {
            obecny + kwota
        };
        self.macierz[i][j] = nowy;
        proof {
            assert forall|a: int, b: int|
                0 <= a < self.liczba_wezlow && 0 <= b < self.liczba_wezlow && !(a == i as int && b
                    == j as int) implies #[trigger] self.poziom(a, b) == old(self).poziom(a, b) by {
                if a != i as int {
                    assert(self.macierz@[a] == old(self).macierz@[a]);
                }
            }
        }
    }

    /// Subtracts `tempo` from every cell at once, saturating at zero:
    /// uniform decay never leaves a cell below the empty trail.
    pub fn ulotnij(&mut self, tempo: u64)
        requires
            old(self).wf(),
        ensures
            final(self).wf(),
            final(self).liczba_wezlow == old(self).liczba_wezlow,
            forall|a: int, b: int|
                0 <= a < old(self).liczba_wezlow && 0 <= b < old(self).liczba_wezlow
                    ==> #[trigger] final(self).poziom(a, b) == if old(self).poziom(a, b) - tempo
                    >= 0 {
                    old(self).poziom(a, b) - tempo
                } else {
                    0
                },
    {
        let n = self.liczba_wezlow;
        let ghost stary = *self;
        let mut i: usize = 0;
        while i < n
            invariant
                n == self.liczba_wezlow,
                stary.liczba_wezlow == n,
                stary.wf(),
                self.wf(),
                i <= n,
                forall|a: int, b: int|
                    0 <= a < i && 0 <= b < n ==> #[trigger] self.poziom(a, b) == if stary.poziom(
                        a,
                        b,
                    ) - tempo >= 0 {
                        stary.poziom(a, b) - tempo
                    } else {
                        0
                    },
                forall|a: int, b: int|
                    i <= a < n && 0 <= b < n ==> #[trigger] self.poziom(a, b) == stary.poziom(
                        a,
                        b,
                    ),
            decreases n - i,
        {
            let mut j: usize = 0;
            while j < n
                invariant
                    n == self.liczba_wezlow,
                    stary.liczba_wezlow == n,
                    stary.wf(),
                    self.wf(),
                    i < n,
                    j <= n,
                    forall|a: int, b: int|
                        0 <= a < i && 0 <= b < n ==> #[trigger] self.poziom(a, b) == if stary.poziom(
                            a,
                            b,
                        ) - tempo >= 0 {
                            stary.poziom(a, b) - tempo
                        } else {
                            0
                        },
                    forall|b: int|
                        0 <= b < j ==> #[trigger] self.poziom(i as int, b) == if stary.poziom(
                            i as int,
                            b,
                        ) - tempo >= 0 {
                            stary.poziom(i as int, b) - tempo
                        } else {
                            0
                        },
                    forall|b: int|
                        j <= b < n ==> #[trigger] self.poziom(i as int, b) == stary.poziom(
                            i as int,
                            b,
                        ),
                    forall|a: int, b: int|
                        i < a < n && 0 <= b < n ==> #[trigger] self.poziom(a, b) == stary.poziom(
                            a,
                            b,
                        ),
                decreases n - j,
            {
                let ghost przed = *self;
                let obecny: u64 = self.macierz[i][j];
                let nowy: u64 = if obecny >= tempo {
                    obecny - tempo
                } else {
                    0
                };
                self.macierz[i][j] = nowy;
                proof {
                    assert(obecny as int == przed.poziom(i as int, j as int));
                    assert(przed.poziom(i as int, j as int) == stary.poziom(i as int, j as int));
                    assert(self.poziom(i as int, j as int) == nowy as int);
                    assert forall|a: int, b: int|
                        0 <= a < n && 0 <= b < n && !(a == i as int && b == j as int)
                        implies #[trigger] self.poziom(a, b) == przed.poziom(a, b) by {
                        if a != i as int {
                            assert(self.macierz@[a] == przed.macierz@[a]);
                        }
                    }
                }
                j = j + 1;
            }
            i = i + 1;
        }
    }
}

} // verus!
