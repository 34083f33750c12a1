use mrowki::blad::Blad;
use mrowki::feromony::Feromony;
use mrowki::feromony::SKALA;
use mrowki::graf::Graf;
use mrowki::mrowkowy::algorytm_mrowkowy;
use mrowki::mrowkowy::iteracja_mrowkowa;
use mrowki::trasa::funkcja_celu;
use mrowki::trasa::straznik;
use mrowki::zachlanny::algorytm_zachlanny;

fn graf_cykliczny() -> Graf {
    Graf {
        liczba_wezlow: 6,
        macierz: vec![
            vec![0, 5, 13, 16, 13, 5],
            vec![5, 0, 4, 13, 20, 16],
            vec![13, 4, 0, 5, 16, 20],
            vec![16, 13, 5, 0, 5, 13],
            vec![13, 20, 16, 5, 0, 4],
            vec![5, 16, 20, 13, 4, 0],
        ],
    }
}

#[test]
fn test_zachlanny_graf_cykliczny() {
    let graf = graf_cykliczny();
    let (koszt, trasa) = algorytm_zachlanny(&graf);
    assert_eq!(trasa, vec![0, 1, 2, 3, 4, 5]);
    assert_eq!(koszt, 28);
}

#[test]
fn test_zachlanny_przechodzi_straznika() {
    let graf = Graf {
        liczba_wezlow: 4,
        macierz: vec![
            vec![0, 9, 1, 7],
            vec![9, 0, 8, 2],
            vec![1, 8, 0, 3],
            vec![7, 2, 3, 0],
        ],
    };
    let (koszt, trasa) = algorytm_zachlanny(&graf);
    assert_eq!(trasa.len(), 4);
    assert!(straznik(&graf, &trasa).is_ok());
    assert_eq!(koszt, funkcja_celu(&graf, &trasa));
    // Nearest neighbour from 0: edge costs 9, 1, 7 pick 2; from 2: 8, 3 pick 3;
    // from 3 only 1 is left; back home for 9.
    assert_eq!(trasa, vec![0, 2, 3, 1]);
    assert_eq!(koszt, 1 + 3 + 2 + 9);
}

#[test]
fn test_zachlanny_na_losowym_grafie() {
    let graf = Graf::losowy(8, 1, 10, 42);
    let (koszt, trasa) = algorytm_zachlanny(&graf);
    assert_eq!(trasa.len(), 8);
    assert!(straznik(&graf, &trasa).is_ok());
    assert_eq!(koszt, funkcja_celu(&graf, &trasa));
}

#[test]
fn test_mrowkowy_przechodzi_straznika() {
    let graf = graf_cykliczny();
    let wynik = algorytm_mrowkowy(&graf, 5, 500_000, 1_000_000, 100, 7);
    let (koszt, trasa) = wynik.expect("positive costs and five iterations");
    assert_eq!(trasa.len(), 6);
    assert!(straznik(&graf, &trasa).is_ok());
    assert_eq!(koszt, funkcja_celu(&graf, &trasa));
}

#[test]
fn test_mrowkowy_bez_losowosci_wybiera_najnizszy_indeks() {
    // With randomness weight zero and an all-zero pheromone matrix that a
    // zero deposit constant keeps at zero, every candidate scores 0 and each
    // step falls to the lowest unvisited index: the three ants walk
    // [0,1,2], [1,0,2] and [2,0,1], and the first of the two cheapest wins.
    let graf = Graf {
        liczba_wezlow: 3,
        macierz: vec![vec![0, 2, 9], vec![3, 0, 4], vec![8, 7, 0]],
    };
    let wynik = algorytm_mrowkowy(&graf, 1, 0, 0, 5, 123);
    let (koszt, trasa) = wynik.expect("positive costs and one iteration");
    assert_eq!(trasa, vec![0, 1, 2]);
    assert_eq!(koszt, 14);
}

#[test]
fn test_mrowkowy_graf_jednego_miasta() {
    let graf = Graf {
        liczba_wezlow: 1,
        macierz: vec![vec![7]],
    };
    assert_eq!(algorytm_mrowkowy(&graf, 4, 250_000, 500_000, 10, 1), Ok((0, vec![0])));
}

#[test]
fn test_zachlanny_graf_jednego_miasta() {
    let graf = Graf {
        liczba_wezlow: 1,
        macierz: vec![vec![7]],
    };
    assert_eq!(algorytm_zachlanny(&graf), (0, vec![0]));
}

#[test]
fn test_funkcja_celu_jednego_miasta_liczy_petle() {
    let graf = Graf {
        liczba_wezlow: 1,
        macierz: vec![vec![7]],
    };
    assert_eq!(funkcja_celu(&graf, &vec![0]), 7);
}

#[test]
fn test_mrowkowy_zero_iteracji_to_blad_dlugosci() {
    let graf = graf_cykliczny();
    assert_eq!(algorytm_mrowkowy(&graf, 0, 0, 0, 0, 9), Err(Blad::ZlaDlugoscTrasy));
}

#[test]
fn test_mrowkowy_zerowa_krawedz_to_blad() {
    let graf = Graf {
        liczba_wezlow: 3,
        macierz: vec![vec![0, 0, 0], vec![0, 0, 0], vec![0, 0, 0]],
    };
    assert_eq!(
        algorytm_mrowkowy(&graf, 1, 500_000, 1_000_000, 10, 3),
        Err(Blad::ZerowyKosztKrawedzi)
    );
}

#[test]
fn test_iteracje_nie_pogarszaja_wyniku() {
    let graf = graf_cykliczny();
    let mut feromony = Feromony::nowe(6);
    let mut najlepsze: (usize, Vec<usize>) = (usize::MAX, vec![0]);
    let mut kostka: rand::rngs::StdRng = rand::SeedableRng::seed_from_u64(11);
    let mut poprzedni = usize::MAX;
    for _ in 0..4 {
        iteracja_mrowkowa(&graf, &mut feromony, &mut najlepsze, 300_000, 800_000, 50, &mut kostka)
            .expect("positive costs");
        assert!(najlepsze.0 <= poprzedni);
        poprzedni = najlepsze.0;
    }
    assert!(najlepsze.0 < usize::MAX);
    assert!(straznik(&graf, &najlepsze.1).is_ok());
}

#[test]
fn test_feromony_zostaw_nie_przekracza_skali() {
    let mut feromony = Feromony::nowe(3);
    feromony.zostaw(0, 1, u64::MAX);
    assert_eq!(feromony.odczyt(0, 1), SKALA);
    feromony.zostaw(0, 1, 17);
    assert_eq!(feromony.odczyt(0, 1), SKALA);
    feromony.zostaw(2, 2, 123);
    assert_eq!(feromony.odczyt(2, 2), 123);
    feromony.zostaw(2, 2, SKALA - 100);
    assert_eq!(feromony.odczyt(2, 2), SKALA);
    assert_eq!(feromony.odczyt(1, 0), 0);
}

#[test]
fn test_feromony_ulotnij_nie_schodzi_ponizej_zera() {
    let mut feromony = Feromony::nowe(2);
    feromony.zostaw(0, 0, 30);
    feromony.zostaw(1, 1, 10);
    feromony.ulotnij(20);
    assert_eq!(feromony.odczyt(0, 0), 10);
    assert_eq!(feromony.odczyt(1, 1), 0);
    assert_eq!(feromony.odczyt(0, 1), 0);
    feromony.ulotnij(u64::MAX);
    assert_eq!(feromony.odczyt(0, 0), 0);
}

#[test]
fn test_losowy_graf_w_zakresie() {
    let graf = Graf::losowy(5, 3, 9, 77);
    assert_eq!(graf.liczba_wezlow, 5);
    assert_eq!(graf.macierz.len(), 5);
    for wiersz in &graf.macierz {
        assert_eq!(wiersz.len(), 5);
        for &koszt in wiersz {
            assert!((3..9).contains(&koszt));
        }
    }
}

#[test]
fn test_losowy_graf_nie_jest_staly() {
    let graf = Graf::losowy(6, 0, 1000, 5);
    let pierwszy = graf.macierz[0][0];
    let rozne = graf
        .macierz
        .iter()
        .flat_map(|w| w.iter())
        .any(|&k| k != pierwszy);
    assert!(rozne);
}

#[test]
fn test_funkcja_celu_dokladne_wartosci() {
    let graf = Graf {
        liczba_wezlow: 2,
        macierz: vec![vec![0, 3], vec![5, 0]],
    };
    assert_eq!(funkcja_celu(&graf, &vec![0, 1]), 8);
    assert_eq!(funkcja_celu(&graf, &vec![1, 0]), 8);

    let niesymetryczny = Graf {
        liczba_wezlow: 3,
        macierz: vec![vec![0, 1, 2], vec![4, 0, 8], vec![16, 32, 0]],
    };
    assert_eq!(funkcja_celu(&niesymetryczny, &vec![2, 0, 1]), 16 + 1 + 8);
    assert_eq!(funkcja_celu(&niesymetryczny, &vec![0, 1, 2]), 1 + 8 + 16);
}

#[test]
fn test_mrowkowy_jest_powtarzalny_dla_ziarna() {
    let graf = graf_cykliczny();
    let pierwszy = algorytm_mrowkowy(&graf, 3, 400_000, 900_000, 25, 2718);
    let drugi = algorytm_mrowkowy(&graf, 3, 400_000, 900_000, 25, 2718);
    assert_eq!(pierwszy, drugi);
}
