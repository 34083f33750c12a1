use mrowki::graf::Graf;
use mrowki::trasa::funkcja_celu;

fn do_json(graf: &Graf) -> String {
    let mut wiersze: Vec<serde_json::Value> = Vec::new();
    for wiersz in &graf.macierz {
        let liczby: Vec<serde_json::Value> = wiersz
            .iter()
            .map(|&k| serde_json::Value::from(k as u64))
            .collect();
        wiersze.push(serde_json::Value::Array(liczby));
    }
    let mut obiekt = serde_json::Map::new();
    obiekt.insert(
        "liczba_wezlow".to_string(),
        serde_json::Value::from(graf.liczba_wezlow as u64),
    );
    obiekt.insert("macierz".to_string(), serde_json::Value::Array(wiersze));
    serde_json::to_string(&serde_json::Value::Object(obiekt)).expect("serializable value")
}

fn z_json(tekst: &str) -> Graf {
    let wartosc: serde_json::Value = serde_json::from_str(tekst).expect("well-formed graph record");
    let liczba_wezlow = wartosc["liczba_wezlow"].as_u64().expect("a node count") as usize;
    let mut macierz: Vec<Vec<usize>> = Vec::new();
    for wiersz in wartosc["macierz"].as_array().expect("a matrix") {
        let mut koszty: Vec<usize> = Vec::new();
        for koszt in wiersz.as_array().expect("a matrix row") {
            koszty.push(koszt.as_u64().expect("a non-negative integer cost") as usize);
        }
        macierz.push(koszty);
    }
    Graf { liczba_wezlow, macierz }
}

#[test]
fn test_koszt_trasy_przezywa_zapis_i_odczyt() {
    let graf = Graf {
        liczba_wezlow: 4,
        macierz: vec![
            vec![0, 9, 1, 7],
            vec![9, 0, 8, 2],
            vec![1, 8, 0, 3],
            vec![7, 2, 3, 0],
        ],
    };
    let trasa = vec![0, 2, 3, 1];
    let koszt_przed = funkcja_celu(&graf, &trasa);

    let zapis = do_json(&graf);
    let wczytany = z_json(&zapis);

    assert_eq!(wczytany.liczba_wezlow, graf.liczba_wezlow);
    assert_eq!(wczytany.macierz, graf.macierz);
    assert_eq!(funkcja_celu(&wczytany, &trasa), koszt_przed);
}

#[test]
fn test_losowy_graf_przezywa_zapis_i_odczyt() {
    let graf = Graf::losowy(7, 2, 40, 2024);
    let trasa = vec![3, 1, 6, 0, 5, 2, 4];
    let koszt_przed = funkcja_celu(&graf, &trasa);
    let wczytany = z_json(&do_json(&graf));
    assert_eq!(wczytany.macierz, graf.macierz);
    assert_eq!(funkcja_celu(&wczytany, &trasa), koszt_przed);
}
