use mc_app::journal::niveau_de;
use mc_app::log::{level_of, Level};

#[test]
fn the_five_levels_are_recognized() {
    assert_eq!(level_of("error"), Level::Error);
    assert_eq!(level_of("warn"), Level::Warn);
    assert_eq!(level_of("info"), Level::Info);
    assert_eq!(level_of("debug"), Level::Debug);
    assert_eq!(level_of("trace"), Level::Trace);
}

#[test]
fn an_unknown_level_maps_to_info() {
    assert_eq!(level_of("verbose"), Level::Info);
    assert_eq!(level_of(""), Level::Info);
    assert_eq!(level_of("ERROR"), Level::Info);
}

#[test]
fn les_cinq_niveaux_sont_reconnus() {
    assert_eq!(niveau_de("error"), Level::Error);
    assert_eq!(niveau_de("warn"), Level::Warn);
    assert_eq!(niveau_de("info"), Level::Info);
    assert_eq!(niveau_de("debug"), Level::Debug);
    assert_eq!(niveau_de("trace"), Level::Trace);
}

#[test]
fn un_niveau_inconnu_vaut_info() {
    assert_eq!(niveau_de("verbeux"), Level::Info);
    assert_eq!(niveau_de(""), Level::Info);
    assert_eq!(niveau_de("ERROR"), Level::Info);
}
