use mrowki::blad::Blad;
use mrowki::graf::Graf;
use mrowki::trasa::straznik;

#[test]
fn test_straznik_dobry() {
    let graf = Graf {
        liczba_wezlow: 3,
        macierz: vec![vec![1]],
    };
    let miasta = vec![0, 2, 1];
    assert!(straznik(&graf, &miasta).is_ok());
}

#[test]
fn test_straznik_rozna_liczba_miast() {
    let graf = Graf {
        liczba_wezlow: 7,
        macierz: vec![vec![1]],
    };
    let miasta = vec![0, 2, 3, 1];
    assert_eq!(straznik(&graf, &miasta), Err(Blad::ZlaDlugoscTrasy));
}

#[test]
fn test_straznik_powtarzajace_sie_miasta() {
    let graf = Graf {
        liczba_wezlow: 4,
        macierz: vec![vec![1]],
    };
    let miasta = vec![0, 3, 3, 1];
    assert_eq!(straznik(&graf, &miasta), Err(Blad::PowtorzoneMiasto));
}

#[test]
fn test_straznik_pusta_trasa_pelnego_grafu() {
    let graf = Graf {
        liczba_wezlow: 2,
        macierz: vec![vec![0, 1], vec![1, 0]],
    };
    let miasta: Vec<usize> = Vec::new();
    assert_eq!(straznik(&graf, &miasta), Err(Blad::ZlaDlugoscTrasy));
}
