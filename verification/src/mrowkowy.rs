use vstd::prelude::*;
use crate::blad::Blad;
use crate::feromony::Feromony;
use crate::feromony::SKALA;
use crate::graf::Graf;
use crate::losowanie::kostka_z_ziarna;
use crate::mrowka::Mrowka;
use crate::trasa::funkcja_celu;
use crate::trasa::lemma_suma_trasy_ograniczona;
use crate::trasa::miasta_w_zakresie;
use crate::trasa::straznik;
use crate::trasa::suma_trasy;
use crate::trasa::trasa_poprawna;

verus! {

/// The best-solution pair of a search: either still the starting sentinel
/// (infinite cost), or a recorded candidate, in which case the tour is a
/// valid scored permutation of all cities.
pub open spec fn najlepsze_poprawne(graf: &Graf, koszt: usize, trasa: Seq<usize>) -> bool {
    koszt < usize::MAX ==> {
        &&& trasa_poprawna(graf.liczba_wezlow as int, trasa)
        &&& miasta_w_zakresie(graf.liczba_wezlow as int, trasa)
        &&& koszt as int == suma_trasy(graf, trasa)
    }
}

/// No directed edge between two distinct cities costs zero; on such graphs
/// the search can never hit the zero-cost deposit degeneracy.
pub open spec fn koszty_dodatnie(graf: &Graf) -> bool {
    forall|i: int, j: int|
        0 <= i < graf.liczba_wezlow && 0 <= j < graf.liczba_wezlow && i != j ==> #[trigger] graf.koszt(
            i,
            j,
        ) > 0
}

/// An element-for-element copy of a tour.
fn skopiuj(v: &Vec<usize>) -> (r: Vec<usize>)
    ensures
        r@ == v@,
{
    let mut r: Vec<usize> = Vec::new();
    let mut i: usize = 0;
    while i < v.len()
        invariant
            i <= v@.len(),
            r@ == v@.take(i as int),
        decreases v@.len() - i,
    {
        r.push(v[i]);
        proof {
            assert(r@ =~= v@.take(i as int + 1));
        }
        i = i + 1;
    }
    proof {
        assert(v@.take(v@.len() as int) =~= v@);
    }
    r
}

/// One full iteration of the ant-colony search: one ant per city, `n - 1`
/// synchronized construction rounds (each ant steps once per round, in
/// city-index order, then the whole matrix evaporates once), then every
/// complete tour is scored and the best-so-far pair is updated on strict
/// improvement only. The recorded best cost never worsens, and after a
/// successful iteration a candidate has certainly been recorded.
#[verifier::loop_isolation(false)]
pub fn iteracja_mrowkowa(
    graf: &Graf,
    feromony: &mut Feromony,
    najlepsze: &mut (usize, Vec<usize>),
    waga_losowosci: u64,
    zostawiany_feromon: u64,
    ulatnianie_feromonu: u64,
    kostka: &mut rand::rngs::StdRng,
) -> (w: Result<(), Blad>)
    requires
        graf.wf(),
        graf.liczba_wezlow >= 1,
        (graf.liczba_wezlow as int) * graf.maks_koszt() < usize::MAX as int,
        old(feromony).wf(),
        old(feromony).liczba_wezlow == graf.liczba_wezlow,
        waga_losowosci <= SKALA,
        najlepsze_poprawne(graf, old(najlepsze).0, old(najlepsze).1@),
    ensures
        final(feromony).wf(),
        final(feromony).liczba_wezlow == graf.liczba_wezlow,
        final(najlepsze).0 <= old(najlepsze).0,
        final(najlepsze).0 < old(najlepsze).0 || *final(najlepsze) == *old(najlepsze),
        najlepsze_poprawne(graf, final(najlepsze).0, final(najlepsze).1@),
        match w {
            Ok(()) => final(najlepsze).0 < usize::MAX,
            Err(e) => {
                &&& e == Blad::ZerowyKosztKrawedzi
                &&& *final(najlepsze) == *old(najlepsze)
                &&& !koszty_dodatnie(graf)
            },
        },
{
    let n = graf.liczba_wezlow;

    let mut mrowki: Vec<Mrowka> = Vec::new();
    let mut k: usize = 0;
    while k < n
        invariant
            k <= n,
            mrowki@.len() == k,
            forall|a: int|
                0 <= a < k ==> (#[trigger] mrowki@[a]).wf(n as int) && mrowki@[a].odwiedzone_miasta@.len()
                    == 1,
        decreases n - k,
    {
        mrowki.push(Mrowka::new(n, k));
        k = k + 1;
    }

    let mut z: usize = 0;
    while z < n - 1
        invariant
            z <= n - 1,
            feromony.wf(),
            feromony.liczba_wezlow == n,
            mrowki@.len() == n,
            forall|a: int|
                0 <= a < n ==> (#[trigger] mrowki@[a]).wf(n as int) && mrowki@[a].odwiedzone_miasta@.len()
                    == z + 1,
        decreases n - 1 - z,
    {
        let mut nowe: Vec<Mrowka> = Vec::new();
        while mrowki.len() > 0
            invariant
                feromony.wf(),
                feromony.liczba_wezlow == n,
                mrowki@.len() + nowe@.len() == n,
                forall|a: int|
                    0 <= a < mrowki@.len() ==> (#[trigger] mrowki@[a]).wf(n as int)
                        && mrowki@[a].odwiedzone_miasta@.len() == z + 1,
                forall|a: int|
                    0 <= a < nowe@.len() ==> (#[trigger] nowe@[a]).wf(n as int)
                        && nowe@[a].odwiedzone_miasta@.len() == z + 2,
            decreases mrowki@.len(),
        {
            let mut m = mrowki.remove(0);
            match m.krok(graf, feromony, waga_losowosci, zostawiany_feromon, kostka) {
                Ok(()) => {},
                Err(e) => {
                    return Err(e);
                },
            }
            nowe.push(m);
        }
        mrowki = nowe;
        feromony.ulotnij(ulatnianie_feromonu);
        z = z + 1;
    }

    let mut idx: usize = 0;
    while idx < n
        invariant
            idx <= n,
            mrowki@.len() == n,
            forall|a: int|
                0 <= a < n ==> (#[trigger] mrowki@[a]).wf(n as int) && mrowki@[a].odwiedzone_miasta@.len()
                    == n,
            najlepsze.0 <= old(najlepsze).0,
            najlepsze.0 < old(najlepsze).0 || *najlepsze == *old(najlepsze),
            najlepsze_poprawne(graf, najlepsze.0, najlepsze.1@),
            idx >= 1 ==> najlepsze.0 < usize::MAX,
        decreases n - idx,
    {
        proof {
            lemma_suma_trasy_ograniczona(graf, mrowki@[idx as int].odwiedzone_miasta@);
        }
        let wartosc = funkcja_celu(graf, &mrowki[idx].odwiedzone_miasta);
        if wartosc < najlepsze.0 {
            najlepsze.0 = wartosc;
            najlepsze.1 = skopiuj(&mrowki[idx].odwiedzone_miasta);
        }
        idx = idx + 1;
    }

    Ok(())
}

/// The whole ant-colony search on a seeded generator: starting from an
/// all-zero pheromone matrix and the infinite-cost sentinel, it runs the
/// requested number of iterations, guard-checks the best tour found, and
/// returns it with its cost. A single-city graph short-circuits to the
/// trivial zero-cost tour before any construction; with no iterations on a
/// larger graph the sentinel tour cannot pass the guard, and that guard
/// failure is the reported error; the only other failure is the zero-cost
/// edge degeneracy, which positive off-diagonal costs rule out.
#[verifier::loop_isolation(false)]
pub fn algorytm_mrowkowy(
    graf: &Graf,
    liczba_iteracji: usize,
    waga_losowosci: u64,
    zostawiany_feromon: u64,
    ulatnianie_feromonu: u64,
    ziarno: u64,
) -> (w: Result<(usize, Vec<usize>), Blad>)
    requires
        graf.wf(),
        graf.liczba_wezlow >= 1,
        (graf.liczba_wezlow as int) * graf.maks_koszt() < usize::MAX as int,
        waga_losowosci <= SKALA,
    ensures
        match w {
            Ok(p) => {
                &&& trasa_poprawna(graf.liczba_wezlow as int, p.1@)
                &&& miasta_w_zakresie(graf.liczba_wezlow as int, p.1@)
                &&& (graf.liczba_wezlow > 1 ==> p.0 as int == suma_trasy(graf, p.1@))
                &&& (graf.liczba_wezlow == 1 ==> p.0 == 0usize && p.1@ == seq![0usize])
            },
            Err(e) => {
                &&& (e == Blad::ZlaDlugoscTrasy <==> liczba_iteracji == 0 && graf.liczba_wezlow
                    > 1)
                &&& (e == Blad::ZerowyKosztKrawedzi ==> liczba_iteracji >= 1 && !koszty_dodatnie(
                    graf,
                ))
                &&& e != Blad::PowtorzoneMiasto
            },
        },
        graf.liczba_wezlow == 1 || (liczba_iteracji >= 1 && koszty_dodatnie(graf)) ==> w matches Ok(
            _,
        ),
{
    let n = graf.liczba_wezlow;

    let mut trasa_startowa: Vec<usize> = Vec::new();
    trasa_startowa.push(0);
    proof {
        assert(trasa_startowa@ =~= seq![0usize]);
    }
    if n == 1 {
        return Ok((0, trasa_startowa));
    }

    let mut kostka = kostka_z_ziarna(ziarno);
    let mut feromony = Feromony::nowe(n);
    let mut najlepsze: (usize, Vec<usize>) = (usize::MAX, trasa_startowa);

    let mut i: usize = 0;
    while i < liczba_iteracji
        invariant
            i <= liczba_iteracji,
            feromony.wf(),
            feromony.liczba_wezlow == n,
            najlepsze_poprawne(graf, najlepsze.0, najlepsze.1@),
            i >= 1 ==> najlepsze.0 < usize::MAX,
            i == 0 ==> najlepsze.0 == usize::MAX && najlepsze.1@ == seq![0usize],
        decreases liczba_iteracji - i,
    {
        match iteracja_mrowkowa(
            graf,
            &mut feromony,
            &mut najlepsze,
            waga_losowosci,
            zostawiany_feromon,
            ulatnianie_feromonu,
            &mut kostka,
        ) {
            Ok(()) => {},
            Err(e) => {
                return Err(e);
            },
        }
        i = i + 1;
    }

    match straznik(graf, &najlepsze.1) {
        Ok(()) => Ok(najlepsze),
        Err(e) => Err(e),
    }
}

} // verus!
