use mc_app::recette::{manquements, Rapport};

/// Ce que la fenêtre rapporte quand tout va.
fn bon() -> Rapport {
    Rapport {
        theme: "oklch(58% 0.13 133)".into(),
        verre: "blur(14px) saturate(140%)".into(),
        color_mix: "rgb(128, 0, 128)".into(),
        route_montee: true,
        feuilles: 1,
        violations: Vec::new(),
    }
}

#[test]
fn un_build_conforme_ne_manque_de_rien() {
    assert_eq!(manquements(&bon()), Vec::<String>::new());
}

#[test]
fn un_verre_absent_est_signale() {
    for valeur in ["", "none"] {
        let rapport = Rapport {
            verre: valeur.into(),
            ..bon()
        };
        let manques = manquements(&rapport);
        assert_eq!(manques.len(), 1, "verre « {valeur} »");
        assert!(manques[0].contains("backdrop-filter"));
    }
}

#[test]
fn un_fragment_paresseux_manquant_est_signale() {
    let manques = manquements(&Rapport {
        route_montee: false,
        ..bon()
    });
    assert_eq!(manques.len(), 1);
    assert!(manques[0].contains("paresseux"));
}

#[test]
fn un_theme_absent_est_signale() {
    let manques = manquements(&Rapport {
        theme: String::new(),
        ..bon()
    });
    assert_eq!(manques.len(), 1);
    assert!(manques[0].contains("--color-primary"));
}

#[test]
fn une_feuille_de_style_absente_est_signalee() {
    let manques = manquements(&Rapport {
        feuilles: 0,
        ..bon()
    });
    assert_eq!(manques.len(), 1);
    assert!(manques[0].contains("<link>"));
}

#[test]
fn un_color_mix_non_resolu_est_signale() {
    for valeur in ["", "color-mix(in oklab, red 50%, blue)"] {
        let manques = manquements(&Rapport {
            color_mix: valeur.into(),
            ..bon()
        });
        assert_eq!(manques.len(), 1, "color-mix « {valeur} »");
        assert!(manques[0].contains("color-mix"));
    }
}

#[test]
fn les_deux_formes_resolues_passent() {
    for valeur in ["rgb(128, 0, 128)", "oklab(0.5 0.1 -0.1)"] {
        assert!(
            manquements(&Rapport {
                color_mix: valeur.into(),
                ..bon()
            })
            .is_empty(),
            "color-mix « {valeur} »"
        );
    }
}

#[test]
fn chaque_violation_est_reportee() {
    let manques = manquements(&Rapport {
        violations: vec![
            "script-src ← inline".into(),
            "img-src ← https://ailleurs".into(),
        ],
        ..bon()
    });
    assert_eq!(manques.len(), 2);
    assert!(manques[0].contains("script-src"));
    assert!(manques[1].contains("https://ailleurs"));
}

#[test]
fn un_rapport_vide_ne_passe_pas_pour_un_succes() {
    let manques = manquements(&Rapport::default());
    assert!(
        manques.len() >= 4,
        "un rapport vide doit tout signaler : {manques:?}"
    );
}

#[test]
fn la_couleur_non_resolue_est_citee_telle_quelle() {
    let manques = manquements(&Rapport {
        color_mix: "bleu".into(),
        ..bon()
    });
    assert_eq!(
        manques,
        vec!["color-mix() n'est pas résolu par le moteur : « bleu »".to_string()]
    );
}
