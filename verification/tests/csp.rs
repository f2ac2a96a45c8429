use mc_app::csp::{judge, judge_payload, Verdict};

/// The configured string, as the configuration carries it.
const CONFIGUREE: &str = "default-src 'self'; script-src 'self'; style-src 'self' 'unsafe-inline'; img-src 'self' data: https://mc-heads.net; connect-src 'self' ipc: http://ipc.localhost";

/// The string actually served, as a debug build's window received it.
const SERVIE: &str = "style-src 'self' 'unsafe-inline'; img-src 'self' data: https://mc-heads.net; default-src 'self'; connect-src 'self' ipc: http://ipc.localhost; script-src 'self' 'sha256-raN9g3H4/dO8mZTghxmpwIgmmDWT4PrwtdQGtErN334=' 'sha256-b2pRmdZzRK2UEE2Y2izHHGpcCBmGUI3ajk8odRJT+jI=' 'sha256-WoWckt9X/P4/opegC4iuUy1+J6pfCaXJ2CkVE2gaiMA=' 'sha256-AChnpMhGIxxHNYcAGoNFqmgzgXq0sEBJDR5+ReXoCaY=' 'sha256-4YLDHlNhJYuS+BrRUUkXea3SkKzwHTQ80BebtmRWptQ=' 'sha256-ga43UjNWBepYSeJXXGAzXPmqy/vdbnKX/0pqlgdMjp4=' 'sha256-L22/pkuIINLKMKP4klrbibY7UEdR92P5HuyBYzhuy1I=' 'sha256-6Uv340HkYRGMuqMHMPg9OCr/36YC36+i5P8h/e9lL7A='";

#[test]
fn la_chaine_configuree_laisse_passer_les_styles_de_composant() {
    assert_eq!(
        judge(CONFIGUREE),
        Some(Verdict {
            component_styles_pass: true,
            nonce_on_style: false,
            strict_scripts: true,
        })
    );
}

#[test]
fn ce_qui_est_reellement_servi_laisse_les_styles_tranquilles() {
    assert_eq!(
        judge(SERVIE),
        Some(Verdict {
            component_styles_pass: true,
            nonce_on_style: false,
            strict_scripts: true,
        })
    );
}

#[test]
fn un_nonce_sur_les_styles_annule_le_desserrage() {
    let servie = "default-src 'self'; script-src 'self' 'nonce-a'; style-src 'self' 'unsafe-inline' 'nonce-a'";
    assert_eq!(
        judge(servie),
        Some(Verdict {
            component_styles_pass: false,
            nonce_on_style: true,
            strict_scripts: true,
        })
    );
}

#[test]
fn unsafe_eval_desarme_les_scripts() {
    let servie = "style-src 'self' 'unsafe-inline'; script-src 'self' 'nonce-a' 'unsafe-eval'";
    let verdict = judge(servie).expect("style-src est là");
    assert!(!verdict.strict_scripts);
}

#[test]
fn un_inline_de_script_sans_nonce_n_est_pas_strict() {
    let servie = "style-src 'self' 'unsafe-inline'; script-src 'self' 'unsafe-inline'";
    let verdict = judge(servie).expect("style-src est là");
    assert!(!verdict.strict_scripts);
}

#[test]
fn sans_style_src_il_n_y_a_pas_de_reponse() {
    assert_eq!(judge("default-src 'self'; script-src 'self'"), None);
}

#[test]
fn une_directive_voisine_n_est_pas_confondue() {
    let servie =
        "style-src 'self' 'unsafe-inline'; script-src-elem 'unsafe-eval'; script-src 'self'";
    let verdict = judge(servie).expect("style-src est là");
    assert!(
        verdict.strict_scripts,
        "c'est script-src-elem qui portait le 'unsafe-eval', pas script-src"
    );
}

#[test]
fn une_directive_vide_se_lit() {
    let verdict = judge("style-src; script-src 'self'").expect("style-src est là");
    assert!(!verdict.component_styles_pass);
    assert!(!verdict.nonce_on_style);
}

#[test]
fn l_espacement_ne_change_pas_le_verdict() {
    let serre = "default-src 'self';script-src 'self';style-src 'self' 'unsafe-inline'";
    let large =
        "  default-src 'self' ;  script-src   'self' ;  style-src   'self'   'unsafe-inline'  ";
    assert_eq!(judge(serre), judge(large));
    assert!(judge(serre).expect("style-src est là").component_styles_pass);
}

#[test]
fn des_empreintes_ne_sont_pas_un_nonce() {
    let verdict = judge(SERVIE).expect("style-src est là");
    assert!(!verdict.nonce_on_style);
    assert!(verdict.strict_scripts);
    assert!(
        !SERVIE.contains("'nonce-"),
        "la chaîne relevée ne contient aucun nonce : c'est le fait que ce module documente"
    );
}

#[test]
fn the_first_of_two_same_directives_wins() {
    let verdict = judge("style-src 'self'; style-src 'unsafe-inline'").expect("style-src");
    assert!(!verdict.component_styles_pass);
}

#[test]
fn a_nonce_on_scripts_covers_their_inline() {
    let verdict = judge("style-src 'self'; script-src 'unsafe-inline' 'nonce-x'").expect("style-src");
    assert!(verdict.strict_scripts);
}

#[test]
fn the_window_s_payload_is_a_json_string() {
    assert_eq!(
        judge_payload("\"style-src 'self' 'unsafe-inline'; script-src 'self'\""),
        Some(Verdict {
            component_styles_pass: true,
            nonce_on_style: false,
            strict_scripts: true,
        })
    );
    assert_eq!(judge_payload("not json"), None);
}
