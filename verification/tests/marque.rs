use mc_app::marque::{nom, sceau, Marque};

#[test]
fn un_nom_d_un_seul_mot_donne_ses_deux_premieres_lettres() {
    assert_eq!(sceau("Prism"), "PR");
    assert_eq!(sceau("samflix"), "SA");
}

#[test]
fn un_nom_de_plusieurs_mots_donne_ses_initiales() {
    assert_eq!(sceau("Mon Réseau"), "MR");
    assert_eq!(sceau("Le Grand Serveur"), "LG");
}

#[test]
fn un_tiret_separe_deux_mots_comme_une_espace() {
    assert_eq!(sceau("samflix-mc"), "SM");
    assert_eq!(sceau("mon_reseau"), "MR");
}

#[test]
fn un_nom_sans_lettre_ne_donne_pas_un_rond_vide() {
    assert_eq!(sceau(""), "??");
    assert_eq!(sceau("— —"), "??");
}

#[test]
fn un_nom_d_une_seule_lettre_reste_affichable() {
    assert_eq!(sceau("X"), "X");
}

#[test]
fn le_nom_par_defaut_est_celui_du_reseau() {
    assert!(!nom(None).is_empty());
    assert_eq!(nom(None), "samflix-mc");
}

#[test]
fn la_marque_porte_son_nom_et_son_sceau() {
    let marque = Marque::courante(None);
    assert_eq!(marque.nom, "samflix-mc");
    assert_eq!(marque.sceau, "SM");
    assert_eq!(Marque::courante(Some("")).nom, "samflix-mc");
}
