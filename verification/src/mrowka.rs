use vstd::prelude::*;
use crate::blad::Blad;
use crate::feromony::Feromony;
use crate::feromony::SKALA;
use crate::graf::Graf;
use crate::licznik::ile_prawdziwych;
use crate::licznik::lemma_ile_dodatnia;
use crate::licznik::lemma_ile_pelna;
use crate::licznik::lemma_ile_po_zgaszeniu;
use crate::losowanie::losuj;
use crate::trasa::bez_powtorzen;
use crate::trasa::miasta_w_zakresie;

verus! {

/// One traversal agent of a search run. It starts on its assigned city and
/// grows its tour by one city per step until every city has been visited;
/// the flag vector tracks which cities a later step may still choose.
pub struct Mrowka {
    pub odwiedzone_miasta: Vec<usize>,
    pub nieodwiedzone_miasta: Vec<bool>,
    pub obecne_miasto: usize,
}

/// The candidate cities of an ant's next step: still flagged unvisited and
/// not the city it stands on.
pub open spec fn kandydat(m: Mrowka, n: int, j: int) -> bool {
    &&& 0 <= j < n
    &&& m.nieodwiedzone_miasta@[j]
    &&& j != m.obecne_miasto
}

/// With no randomness in play the step rule is deterministic: among the
/// candidates, `sel` carries the least pheromone on the edge out of the
/// current city, and ties fall to the lowest index.
pub open spec fn wybor_feromonowy(graf: &Graf, fer: Feromony, m: Mrowka, sel: usize) -> bool {
    let ob = m.obecne_miasto as int;
    forall|j: usize|
        kandydat(m, graf.liczba_wezlow as int, j as int) ==> {
            ||| fer.poziom(ob, sel as int) < #[trigger] fer.poziom(ob, j as int)
            ||| (fer.poziom(ob, sel as int) == fer.poziom(ob, j as int) && sel <= j)
        }
}

impl Mrowka {
    /// The agent's invariant over a graph of `n` cities: the visited list is
    /// a non-empty duplicate-free list of city indices ending at the current
    /// city, and the flags are down for exactly the visited cities before
    /// the current one (the current city's flag falls at the next step).
    pub open spec fn wf(&self, n: int) -> bool {
        &&& self.nieodwiedzone_miasta@.len() == n
        &&& 1 <= self.odwiedzone_miasta@.len() <= n
        &&& self.obecne_miasto < n
        &&& self.odwiedzone_miasta@.last() == self.obecne_miasto
        &&& miasta_w_zakresie(n, self.odwiedzone_miasta@)
        &&& bez_powtorzen(self.odwiedzone_miasta@)
        &&& forall|j: int|
            0 <= j < n ==> (!(#[trigger] self.nieodwiedzone_miasta@[j])
                <==> self.odwiedzone_miasta@.take(
                self.odwiedzone_miasta@.len() - 1,
            ).contains(j as usize))
        &&& ile_prawdziwych(self.nieodwiedzone_miasta@) == n - self.odwiedzone_miasta@.len() + 1
    }

    /// A fresh agent standing on its start city, with only that city in its
    /// tour and every flag still up.
    pub fn new(liczba_wezlow: usize, miasto_startowe: usize) -> (m: Mrowka)
        requires
            miasto_startowe < liczba_wezlow,
        ensures
            m.wf(liczba_wezlow as int),
            m.odwiedzone_miasta@ == seq![miasto_startowe],
            m.obecne_miasto == miasto_startowe,
    {
        let mut odwiedzone_miasta: Vec<usize> = Vec::new();
        odwiedzone_miasta.push(miasto_startowe);
        let nieodwiedzone_miasta: Vec<bool> = vec![true; liczba_wezlow];
        proof {
            assert(odwiedzone_miasta@ =~= seq![miasto_startowe]);
            lemma_ile_pelna(nieodwiedzone_miasta@);
            assert(odwiedzone_miasta@.take(0) =~= Seq::<usize>::empty());
        }
        Mrowka { odwiedzone_miasta, nieodwiedzone_miasta, obecne_miasto: miasto_startowe }
    }

    /// One construction step while the agent is still active: score every
    /// candidate city by a random share plus the pheromone share of the edge
    /// towards it, move to the lowest-scoring candidate (first one on ties),
    /// and reinforce the trail of the edge just taken by the deposit
    /// constant divided by the edge cost. A zero-cost chosen edge is the
    /// fatal numeric degeneracy and changes nothing.
    #[verifier::loop_isolation(false)]
    pub fn krok(
        &mut self,
        graf: &Graf,
        feromony: &mut Feromony,
        waga_losowosci: u64,
        zostawiany_feromon: u64,
        kostka: &mut rand::rngs::StdRng,
    ) -> (w: Result<(), Blad>)
        requires
            graf.wf(),
            old(feromony).wf(),
            old(feromony).liczba_wezlow == graf.liczba_wezlow,
            old(self).wf(graf.liczba_wezlow as int),
            old(self).odwiedzone_miasta@.len() < graf.liczba_wezlow,
            waga_losowosci <= SKALA,
        ensures
            final(feromony).wf(),
            final(feromony).liczba_wezlow == graf.liczba_wezlow,
            match w {
                Ok(()) => {
                    let przedtem = old(self).obecne_miasto as int;
                    let wybrane = final(self).obecne_miasto as int;
                    let kwota = zostawiany_feromon as int / graf.koszt(przedtem, wybrane);
                    &&& final(self).wf(graf.liczba_wezlow as int)
                    &&& final(self).odwiedzone_miasta@ == old(self).odwiedzone_miasta@.push(
                        final(self).obecne_miasto,
                    )
                    &&& kandydat(*old(self), graf.liczba_wezlow as int, wybrane)
                    &&& graf.koszt(przedtem, wybrane) > 0
                    &&& final(feromony).poziom(przedtem, wybrane) == if old(feromony).poziom(
                        przedtem,
                        wybrane,
                    ) + kwota >= SKALA {
                        SKALA as int
                    } else {
                        old(feromony).poziom(przedtem, wybrane) + kwota
                    }
                    &&& forall|a: int, b: int|
                        0 <= a < graf.liczba_wezlow && 0 <= b < graf.liczba_wezlow && !(a
                            == przedtem && b == wybrane) ==> #[trigger] final(feromony).poziom(a, b)
                            == old(feromony).poziom(a, b)
                    &&& (waga_losowosci == 0 ==> wybor_feromonowy(
                        graf,
                        *old(feromony),
                        *old(self),
                        final(self).obecne_miasto,
                    ))
                },
                Err(e) => {
                    &&& e == Blad::ZerowyKosztKrawedzi
                    &&& *final(self) == *old(self)
                    &&& *final(feromony) == *old(feromony)
                    &&& exists|j: int|
                        kandydat(*old(self), graf.liczba_wezlow as int, j) && graf.koszt(
                            old(self).obecne_miasto as int,
                            j,
                        ) == 0
                },
            },
    {
        let n = graf.liczba_wezlow;
        let ob = self.obecne_miasto;
        let waga_feromonu: u64 = SKALA - waga_losowosci;

        proof {
            // The current city's flag is still up, so clearing it leaves
            // `n - len` set flags, and the tour is short of `n`: a candidate
            // exists.
            let flagi = self.nieodwiedzone_miasta@;
            assert(flagi[ob as int]);
            lemma_ile_po_zgaszeniu(flagi, ob as int);
            lemma_ile_dodatnia(flagi.update(ob as int, false));
        }

        let mut najlepszy: usize = 0;
        let mut najlepszy_wynik: u64 = u64::MAX;
        let mut j: usize = 0;
        while j < n
            invariant
                j <= n,
                najlepszy_wynik != u64::MAX ==> {
                    &&& kandydat(*self, n as int, najlepszy as int)
                    &&& najlepszy < j
                },
                najlepszy_wynik == u64::MAX ==> forall|t: int|
                    0 <= t < j ==> !kandydat(*self, n as int, t),
                waga_losowosci == 0 && najlepszy_wynik != u64::MAX ==> {
                    &&& najlepszy_wynik as int == feromony.poziom(ob as int, najlepszy as int)
                    &&& forall|t: usize|
                        t < j && kandydat(*self, n as int, t as int) ==> {
                            ||| feromony.poziom(ob as int, najlepszy as int)
                                < #[trigger] feromony.poziom(ob as int, t as int)
                            ||| (feromony.poziom(ob as int, najlepszy as int) == feromony.poziom(
                                ob as int,
                                t as int,
                            ) && najlepszy <= t)
                        }
                },
            decreases n - j,
        {
            if self.nieodwiedzone_miasta[j] && j != ob {
                let poziom = feromony.odczyt(ob, j);
                let skladnik_losowy: u64 = if waga_losowosci == 0 {
                    0
                } else {
                    losuj(kostka, 0, waga_losowosci)
                };
                proof {
                    assert((waga_feromonu as int) * (poziom as int) <= (SKALA as int) * (
                    SKALA as int)) by (nonlinear_arith)
                        requires
                            waga_feromonu <= SKALA,
                            poziom <= SKALA,
                            0 <= waga_feromonu,
                            0 <= poziom,
                    ;
                    assert((waga_feromonu as int) * (poziom as int) / (SKALA as int) <= (
                    SKALA as int) * (SKALA as int) / (SKALA as int)) by (nonlinear_arith)
                        requires
                            0 <= (waga_feromonu as int) * (poziom as int) <= (SKALA as int) * (
                            SKALA as int),
                    ;
                }
                let skladnik_feromonowy: u64 = (waga_feromonu * poziom) / SKALA;
                let wynik = skladnik_losowy + skladnik_feromonowy;
                proof {
                    if waga_losowosci == 0 {
                        assert((SKALA as int) * (poziom as int) / (SKALA as int) == poziom as int)
                            by (nonlinear_arith)
                            requires
                                0 <= poziom,
                        ;
                    }
                }
                if wynik < najlepszy_wynik {
                    najlepszy = j;
                    najlepszy_wynik = wynik;
                }
            }
            j = j + 1;
        }

        proof {
            if najlepszy_wynik == u64::MAX {
                let sw = choose|t: int|
                    0 <= t < n && self.nieodwiedzone_miasta@.update(ob as int, false)[t];
                assert(kandydat(*self, n as int, sw));
                assert(false);
            }
        }

        let koszt_kr = graf.koszt_krawedzi(ob, najlepszy);
        if koszt_kr == 0 {
            return Err(Blad::ZerowyKosztKrawedzi);
        }

        let kwota: u64 = zostawiany_feromon / (koszt_kr as u64);
        feromony.zostaw(ob, najlepszy, kwota);
        self.nieodwiedzone_miasta[ob] = false;
        self.obecne_miasto = najlepszy;
        self.odwiedzone_miasta.push(najlepszy);

        proof {
            let stare = old(self).odwiedzone_miasta@;
            let nowe = self.odwiedzone_miasta@;
            let dl = stare.len() as int;
            // The chosen city is new to the tour.
            assert(!stare.contains(najlepszy)) by {
                if stare.contains(najlepszy) {
                    let idx = choose|idx: int| 0 <= idx < dl && stare[idx] == najlepszy;
                    assert(idx < dl - 1 ==> stare.take(dl - 1)[idx] == najlepszy);
                    assert(idx < dl - 1 ==> stare.take(dl - 1).contains(najlepszy));
                }
            }
            assert(bez_powtorzen(nowe)) by {
                assert(forall|a: int| 0 <= a < dl ==> nowe[a] == stare[a]);
                assert(forall|a: int| 0 <= a < dl ==> stare[a] != najlepszy) by {
                    assert(forall|a: int| 0 <= a < dl ==> stare.contains(stare[a]));
                }
            }
            // The cleared flags are now exactly the old tour.
            assert(nowe.take(nowe.len() - 1) =~= stare);
            assert forall|t: int| 0 <= t < n implies (!self.nieodwiedzone_miasta@[t] <==> stare.contains(
                t as usize,
            )) by {
                if t == ob as int {
                    assert(stare[dl - 1] == ob);
                    assert(stare.contains(ob));
                } else {
                    assert(self.nieodwiedzone_miasta@[t] == old(self).nieodwiedzone_miasta@[t]);
                    if stare.contains(t as usize) {
                        let idx = choose|idx: int| 0 <= idx < dl && stare[idx] == t as usize;
                        assert(idx < dl - 1);
                        assert(stare.take(dl - 1)[idx] == t as usize);
                        assert(stare.take(dl - 1).contains(t as usize));
                    } else {
                        assert(!stare.take(dl - 1).contains(t as usize)) by {
                            if stare.take(dl - 1).contains(t as usize) {
                                let idx = choose|idx: int|
                                    0 <= idx < dl - 1 && #[trigger] stare.take(dl - 1)[idx]
                                        == t as usize;
                                assert(stare[idx] == t as usize);
                            }
                        }
                    }
                }
            }
            lemma_ile_po_zgaszeniu(old(self).nieodwiedzone_miasta@, ob as int);
        }
        Ok(())
    }
}

} // verus!
