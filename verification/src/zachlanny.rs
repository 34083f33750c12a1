use vstd::prelude::*;
use crate::graf::Graf;
use crate::graf::lemma_koszt_ponizej_maks;
use crate::graf::lemma_maks_koszt_nieujemny;
use crate::licznik::ile_prawdziwych;
use crate::licznik::lemma_ile_dodatnia;
use crate::licznik::lemma_ile_pelna;
use crate::licznik::lemma_ile_po_zgaszeniu;
use crate::trasa::bez_powtorzen;
use crate::trasa::funkcja_celu;
use crate::trasa::lemma_suma_trasy_ograniczona;
use crate::trasa::miasta_w_zakresie;
use crate::trasa::straznik;
use crate::trasa::suma_trasy;
use crate::trasa::trasa_poprawna;

verus! {

/// The nearest-neighbour step rule: out of the city the walk stands on
/// (the last of `odwiedzone`), `nast` is an unvisited city of minimal edge
/// cost, and on ties the lowest index wins.
pub open spec fn najlepszy_nastepnik(graf: &Graf, odwiedzone: Seq<usize>, nast: usize) -> bool {
    let ob = odwiedzone.last() as int;
    &&& nast < graf.liczba_wezlow
    &&& !odwiedzone.contains(nast)
    &&& forall|j: usize|
        j < graf.liczba_wezlow && !odwiedzone.contains(j) ==> {
            ||| graf.koszt(ob, nast as int) < #[trigger] graf.koszt(ob, j as int)
            ||| (graf.koszt(ob, nast as int) == graf.koszt(ob, j as int) && nast <= j)
        }
}

/// The deterministic pheromone-free baseline: start at city 0 and repeatedly
/// move to the cheapest unvisited city, lowest index first on ties, until
/// every city is visited; the result is guard-checked and scored with the
/// objective function. A single-city graph short-circuits to the trivial
/// zero-cost tour.
#[verifier::loop_isolation(false)]
pub fn algorytm_zachlanny(graf: &Graf) -> (wynik: (usize, Vec<usize>))
    requires
        graf.wf(),
        graf.liczba_wezlow >= 1,
        (graf.liczba_wezlow as int) * graf.maks_koszt() < usize::MAX as int,
    ensures
        trasa_poprawna(graf.liczba_wezlow as int, wynik.1@),
        miasta_w_zakresie(graf.liczba_wezlow as int, wynik.1@),
        wynik.1@[0] == 0usize,
        graf.liczba_wezlow > 1 ==> wynik.0 as int == suma_trasy(graf, wynik.1@),
        graf.liczba_wezlow > 1 ==> forall|k: int|
            0 <= k < graf.liczba_wezlow - 1 ==> najlepszy_nastepnik(
                graf,
                #[trigger] wynik.1@.take(k + 1),
                wynik.1@[k + 1],
            ),
        graf.liczba_wezlow == 1 ==> wynik.0 == 0usize && wynik.1@ == seq![0usize],
{
    let n = graf.liczba_wezlow;
    let mut trasa: Vec<usize> = Vec::new();
    trasa.push(0);
    proof {
        assert(trasa@ =~= seq![0usize]);
    }
    if n == 1 {
        return (0, trasa);
    }

    let mut nieodwiedzone: Vec<bool> = vec![true; n];
    proof {
        lemma_ile_pelna(nieodwiedzone@);
        lemma_ile_po_zgaszeniu(nieodwiedzone@, 0);
        lemma_maks_koszt_nieujemny(graf);
        assert(graf.maks_koszt() < usize::MAX as int) by (nonlinear_arith)
            requires
                (graf.liczba_wezlow as int) * graf.maks_koszt() < usize::MAX as int,
                graf.liczba_wezlow >= 1,
                graf.maks_koszt() >= 0,
        ;
    }
    nieodwiedzone[0] = false;
    proof {
        assert forall|t: int| 0 <= t < n implies (!(#[trigger] nieodwiedzone@[t])
            <==> trasa@.contains(t as usize)) by {
            assert(trasa@[0] == 0usize);
            if trasa@.contains(t as usize) {
                let idx = choose|idx: int| 0 <= idx < trasa@.len() && trasa@[idx] == t as usize;
                assert(idx == 0);
            }
        }
    }
    let mut obecne: usize = 0;
    let mut i: usize = 0;

    while i < n - 1
        invariant
            i <= n - 1,
            trasa@.len() == i + 1,
            trasa@[0] == 0usize,
            obecne == trasa@.last(),
            obecne < n,
            miasta_w_zakresie(n as int, trasa@),
            bez_powtorzen(trasa@),
            nieodwiedzone@.len() == n,
            forall|t: int|
                0 <= t < n ==> (!(#[trigger] nieodwiedzone@[t]) <==> trasa@.contains(t as usize)),
            ile_prawdziwych(nieodwiedzone@) == n - i - 1,
            forall|k: int|
                0 <= k < i ==> najlepszy_nastepnik(graf, #[trigger] trasa@.take(k + 1), trasa@[k + 1]),
        decreases n - 1 - i,
    {
        proof {
            lemma_ile_dodatnia(nieodwiedzone@);
        }
        let mut naj: usize = 0;
        let mut naj_koszt: usize = usize::MAX;
        let mut j: usize = 0;
        while j < n
            invariant
                j <= n,
                naj_koszt != usize::MAX ==> {
                    &&& naj < j <= n
                    &&& nieodwiedzone@[naj as int]
                    &&& naj_koszt as int == graf.koszt(obecne as int, naj as int)
                    &&& forall|t: usize|
                        t < j && nieodwiedzone@[t as int] ==> {
                            ||| graf.koszt(obecne as int, naj as int) < #[trigger] graf.koszt(
                                obecne as int,
                                t as int,
                            )
                            ||| (graf.koszt(obecne as int, naj as int) == graf.koszt(
                                obecne as int,
                                t as int,
                            ) && naj <= t)
                        }
                },
                naj_koszt == usize::MAX ==> forall|t: int|
                    0 <= t < j ==> !(#[trigger] nieodwiedzone@[t]),
            decreases n - j,
        {
            if nieodwiedzone[j] {
                proof {
                    lemma_koszt_ponizej_maks(graf, obecne as int, j as int);
                }
                let koszt = graf.koszt_krawedzi(obecne, j);
                if koszt < naj_koszt {
                    naj = j;
                    naj_koszt = koszt;
                }
            }
            j = j + 1;
        }

        proof {
            if naj_koszt == usize::MAX {
                let sw = choose|t: int| 0 <= t < n && nieodwiedzone@[t];
                assert(false);
            }
        }

        let ghost stara = trasa@;
        let ghost przed_flagi = nieodwiedzone@;
        nieodwiedzone[naj] = false;
        obecne = naj;
        trasa.push(naj);
        proof {
            let dl = stara.len() as int;
            lemma_ile_po_zgaszeniu(przed_flagi, naj as int);
            assert(!stara.contains(naj));
            assert(bez_powtorzen(trasa@)) by {
                assert(forall|a: int| 0 <= a < dl ==> stara[a] != naj) by {
                    assert(forall|a: int| 0 <= a < dl ==> stara.contains(#[trigger] stara[a]));
                }
            }
            assert forall|t: int| 0 <= t < n implies (!(#[trigger] nieodwiedzone@[t])
                <==> trasa@.contains(t as usize)) by {
                if t == naj as int {
                    assert(trasa@[dl] == naj);
                    assert(trasa@.contains(naj));
                } else {
                    if stara.contains(t as usize) {
                        let idx = choose|idx: int| 0 <= idx < dl && stara[idx] == t as usize;
                        assert(trasa@[idx] == t as usize);
                        assert(trasa@.contains(t as usize));
                    } else {
                        assert(!trasa@.contains(t as usize)) by {
                            if trasa@.contains(t as usize) {
                                let idx = choose|idx: int|
                                    0 <= idx < dl + 1 && #[trigger] trasa@[idx] == t as usize;
                                assert(idx < dl);
                                assert(stara[idx] == t as usize);
                            }
                        }
                    }
                }
            }
            assert(trasa@.take(dl) =~= stara);
            assert(najlepszy_nastepnik(graf, stara, naj));
            assert forall|k: int| 0 <= k < i + 1 implies najlepszy_nastepnik(
                graf,
                #[trigger] trasa@.take(k + 1),
                trasa@[k + 1],
            ) by {
                if k < i {
                    assert(trasa@.take(k + 1) =~= stara.take(k + 1));
                    assert(trasa@[k + 1] == stara[k + 1]);
                    assert(najlepszy_nastepnik(graf, stara.take(k + 1), stara[k + 1]));
                }
            }
        }
        i = i + 1;
    }

    match straznik(graf, &trasa) {
        Ok(()) => {},
        Err(_) => {
            proof {
                // The construction is proved to yield a permutation, so the
                // guard can only pass.
                assert(false);
            }
        },
    }
    proof {
        lemma_suma_trasy_ograniczona(graf, trasa@);
        assert((trasa@.len() as int) * graf.maks_koszt() <= (graf.liczba_wezlow as int)
            * graf.maks_koszt());
    }
    let koszt_calkowity = funkcja_celu(graf, &trasa);
    (koszt_calkowity, trasa)
}

} // verus!
