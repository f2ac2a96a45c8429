use mc_app::diagnostic::{demande, rapport, Constat};

fn constat(dmabuf_desactive: bool) -> Constat {
    Constat {
        nom: "Helm".to_string(),
        version: "0.4.1".to_string(),
        environnement: "production".to_string(),
        origine: "compile-time".to_string(),
        dmabuf_desactive,
        repertoire: "/home/joueur/.local/share/mc.samflix.launcher/logs".to_string(),
        telemetrie: false,
    }
}

#[test]
fn le_drapeau_se_reconnait_a_n_importe_quelle_place() {
    assert!(demande(&["--diagnostic"]));
    assert!(demande(&["helm", "--diagnostic"]));
    assert!(demande(&["--diagnostic", "--autre"]));
}

#[test]
fn rien_d_autre_ne_declenche_le_diagnostic() {
    assert!(!demande(&Vec::<&str>::new()));
    assert!(!demande(&["helm"]));
    assert!(!demande(&["--diagnostics"]));
    assert!(!demande(&["diagnostic"]));
    assert!(!demande(&["--diagnostic=1"]));
}

#[test]
fn le_rapport_nomme_ce_que_la_ci_verifie() {
    let texte = rapport(&constat(false));

    for attendu in ["nom", "version", "environnement", "répertoire"] {
        assert!(
            texte.contains(attendu),
            "« {attendu} » absent du rapport :\n{texte}"
        );
    }
    assert!(texte.contains("0.4.1"), "{texte}");
}

#[test]
fn le_rapport_dit_ce_qui_a_ete_decide_du_rendu() {
    assert!(rapport(&constat(true)).contains("désactivé"));
    assert!(rapport(&constat(false)).contains("laissé à WebKit"));
}

#[test]
fn le_rapport_se_lit_ligne_a_ligne() {
    let texte = rapport(&constat(false));
    let lignes: Vec<&str> = texte.lines().collect();
    assert_eq!(lignes[0], "Launcher");
    assert_eq!(lignes[1], "  nom           : Helm");
    assert_eq!(lignes[3], "  environnement : production (compile-time)");
    assert_eq!(lignes.last(), Some(&"  télémétrie    : coupée"));
}
