//! La recette du build empaqueté, telle que la fenêtre la rapporte.
//!
//! La fenêtre s'observe elle-même et rapporte ; ce module nomme ce qui
//! manque, et se tait sur ce qui va.

use vstd::prelude::*;
use crate::acceptance::{color_is_resolved, gap_if, glass_is_flat};
use crate::text::{append, chars_of, owned, starts};

verus! {

/// Ce que la fenêtre a observé d'elle-même.
#[derive(Debug, Default, Clone)]
pub struct Rapport {
    /// La valeur de `--color-primary` sur `:root`, ou vide.
    pub theme: String,
    /// La valeur calculée du `backdrop-filter` de la barre de titre.
    pub verre: String,
    /// Une couleur passée par `color-mix()`, telle que le moteur la rend.
    pub color_mix: String,
    /// Un composant de route est-il monté ?
    pub route_montee: bool,
    /// Combien de feuilles de style le document porte.
    pub feuilles: usize,
    /// Les violations de CSP relevées depuis le tout premier script.
    pub violations: Vec<String>,
}

/// Le thème n'est pas appliqué.
pub const MANQUE_THEME: &'static str = "--color-primary n'est pas posée sur :root : le thème daisyUI n'est pas appliqué";

/// Le verre de la barre de titre est un aplat.
pub const MANQUE_VERRE: &'static str = "le backdrop-filter de la barre de titre ne rend rien : soit le style de composant est rejeté, soit le préfixe manque";

/// Ce qui précède la valeur de `color-mix()` non résolue, entre guillemets.
pub const MANQUE_COLOR_MIX: &'static str = "color-mix() n'est pas résolu par le moteur : « ";

/// Ce qui suit cette valeur.
pub const FIN_COLOR_MIX: &'static str = " »";

/// Aucune feuille de style.
pub const MANQUE_FEUILLES: &'static str = "aucune feuille de style : le CSS n'est pas servi par <link>";

/// Aucun composant de route monté.
pub const MANQUE_ROUTE: &'static str = "aucun composant de route monté : le fragment paresseux n'est pas arrivé, ce que `script-src` peut casser sans un mot";

/// Ce qui précède une violation de CSP, rapportée telle quelle.
pub const MANQUE_VIOLATION: &'static str = "violation de CSP : ";

/// Chaque violation, préfixée, dans l'ordre de son relevé.
pub open spec fn manques_de_violations(violations: Seq<String>) -> Seq<Seq<char>> {
    violations.map_values(|v: String| MANQUE_VIOLATION@ + v@)
}

/// Ce qui manque à un rapport, dans l'ordre des vérifications : thème,
/// verre, `color-mix()`, feuilles, route, puis chaque violation.
pub open spec fn manques_de(r: Rapport) -> Seq<Seq<char>> {
    gap_if(r.theme@.len() == 0, MANQUE_THEME@)
        + gap_if(glass_is_flat(r.verre@), MANQUE_VERRE@)
        + gap_if(!color_is_resolved(r.color_mix@), MANQUE_COLOR_MIX@ + r.color_mix@ + FIN_COLOR_MIX@)
        + gap_if(r.feuilles == 0, MANQUE_FEUILLES@)
        + gap_if(!r.route_montee, MANQUE_ROUTE@)
        + manques_de_violations(r.violations@)
}

/// Ajoute `message` si `manque`.
fn noter(manques: &mut Vec<String>, manque: bool, message: String)
    ensures
        final(manques).deep_view() == old(manques).deep_view() + gap_if(manque, message@),
{
    if manque {
        manques.push(message);
    }
    assert(final(manques).deep_view() =~= old(manques).deep_view() + gap_if(manque, message@));
}

/// Ce qui manque, nommé ; une liste vide quand tout va.
pub fn manquements(rapport: &Rapport) -> (r: Vec<String>)
    ensures
        r.deep_view() == manques_de(*rapport),
{
    let mut manques: Vec<String> = Vec::new();
    noter(&mut manques, rapport.theme.as_str().is_empty(), owned(MANQUE_THEME));
    let aplat = rapport.verre.as_str().is_empty() || rapport.verre == owned("none");
    noter(&mut manques, aplat, owned(MANQUE_VERRE));
    let couleur = chars_of(rapport.color_mix.as_str());
    let resolue = starts(&couleur, &chars_of("rgb")) || starts(&couleur, &chars_of("oklab"));
    let mut non_resolue = owned(MANQUE_COLOR_MIX);
    append(&mut non_resolue, rapport.color_mix.as_str());
    append(&mut non_resolue, FIN_COLOR_MIX);
    noter(&mut manques, !resolue, non_resolue);
    noter(&mut manques, rapport.feuilles == 0, owned(MANQUE_FEUILLES));
    noter(&mut manques, !rapport.route_montee, owned(MANQUE_ROUTE));
    let ghost avant = manques.deep_view();
    let mut i: usize = 0;
    while i < rapport.violations.len()
        invariant
            i <= rapport.violations.len(),
            manques.deep_view() == avant + manques_de_violations(rapport.violations@.take(i as int)),
        decreases rapport.violations.len() - i,
    {
        let mut ligne = owned(MANQUE_VIOLATION);
        append(&mut ligne, rapport.violations[i].as_str());
        let ghost precedent = manques.deep_view();
        manques.push(ligne);
        assert(manques.deep_view() =~= precedent.push(MANQUE_VIOLATION@ + rapport.violations@[i as int]@));
        assert(manques_de_violations(rapport.violations@.take(i + 1)) =~= manques_de_violations(
            rapport.violations@.take(i as int),
        ).push(MANQUE_VIOLATION@ + rapport.violations@[i as int]@));
        i = i + 1;
    }
    assert(rapport.violations@.take(rapport.violations.len() as int) =~= rapport.violations@);
    manques
}

} // verus!
