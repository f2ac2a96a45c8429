//! Ce que le launcher répond quand on lui demande où il en est, sans ouvrir
//! de fenêtre : la question que la CI pose au binaire qu'elle vient de
//! publier.

use vstd::prelude::*;
use crate::log::is_named;
use crate::text::{append, owned};

verus! {

/// Le drapeau qui déclenche le diagnostic au lieu de la fenêtre.
pub const DRAPEAU: &'static str = "--diagnostic";

/// Ce que le binaire sait de lui-même, tel que l'appelant l'a relevé.
#[derive(Debug, Clone)]
pub struct Constat {
    /// Le nom retenu à la compilation.
    pub nom: String,
    /// La version du binaire, ou « inconnue ».
    pub version: String,
    /// L'environnement, et d'où vient sa valeur.
    pub environnement: String,
    pub origine: String,
    /// Le DMA-BUF a-t-il été désactivé ?
    pub dmabuf_desactive: bool,
    /// Où vont les journaux.
    pub repertoire: String,
    /// La télémétrie est-elle active ?
    pub telemetrie: bool,
}

/// Le diagnostic est-il demandé : le drapeau figure-t-il, à n'importe
/// quelle place, tel quel ?
pub open spec fn demande_dans(arguments: Seq<&str>) -> bool {
    exists|i: int| 0 <= i < arguments.len() && (#[trigger] arguments[i])@ == DRAPEAU@
}

/// Le diagnostic est-il demandé ?
pub fn demande(arguments: &[&str]) -> (r: bool)
    ensures
        r == demande_dans(arguments@),
{
    let mut i: usize = 0;
    while i < arguments.len()
        invariant
            i <= arguments.len(),
            forall|j: int| 0 <= j < i ==> (#[trigger] arguments@[j])@ != DRAPEAU@,
        decreases arguments.len() - i,
    {
        if is_named(arguments[i], DRAPEAU) {
            return true;
        }
        i = i + 1;
    }
    false
}

/// Ce que dit la ligne du rendu.
pub open spec fn rendu_dit(desactive: bool) -> Seq<char> {
    if desactive {
        "désactivé (pilote NVIDIA détecté)"@
    } else {
        "laissé à WebKit"@
    }
}

/// Ce que dit la ligne de la télémétrie.
pub open spec fn telemetrie_dit(active: bool) -> Seq<char> {
    if active {
        "active — couper avec SAMFLIX_TELEMETRY=0"@
    } else {
        "coupée"@
    }
}

/// Le texte du rapport, ligne par ligne.
pub open spec fn texte_du_rapport(c: Constat) -> Seq<char> {
    "Launcher\n  nom           : "@ + c.nom@ + "\n  version       : "@ + c.version@
        + "\n  environnement : "@ + c.environnement@ + " ("@ + c.origine@ + ")\n\nRendu\n  DMA-BUF       : "@
        + rendu_dit(c.dmabuf_desactive) + "\n\nJournaux et incidents\n  répertoire    : "@
        + c.repertoire@ + "\n  télémétrie    : "@ + telemetrie_dit(c.telemetrie) + "\n"@
}

/// Ce que le binaire sait de lui-même, en un texte : la fonction rend le
/// texte, l'impression appartient à l'appelant.
pub fn rapport(c: &Constat) -> (r: String)
    ensures
        r@ == texte_du_rapport(*c),
{
    let mut t = owned("Launcher\n  nom           : ");
    append(&mut t, c.nom.as_str());
    append(&mut t, "\n  version       : ");
    append(&mut t, c.version.as_str());
    append(&mut t, "\n  environnement : ");
    append(&mut t, c.environnement.as_str());
    append(&mut t, " (");
    append(&mut t, c.origine.as_str());
    append(&mut t, ")\n\nRendu\n  DMA-BUF       : ");
    if c.dmabuf_desactive {
        append(&mut t, "désactivé (pilote NVIDIA détecté)");
    } else {
        append(&mut t, "laissé à WebKit");
    }
    append(&mut t, "\n\nJournaux et incidents\n  répertoire    : ");
    append(&mut t, c.repertoire.as_str());
    append(&mut t, "\n  télémétrie    : ");
    if c.telemetrie {
        append(&mut t, "active — couper avec SAMFLIX_TELEMETRY=0");
    } else {
        append(&mut t, "coupée");
    }
    append(&mut t, "\n");
    t
}

/// Le texte finit-il par `fin` ?
pub open spec fn finit_par(texte: Seq<char>, fin: Seq<char>) -> bool {
    fin.len() <= texte.len() && texte.subrange(texte.len() - fin.len(), texte.len() as int) == fin
}

/// La dernière ligne du rapport suit le drapeau de la télémétrie : active,
/// elle dit comment la couper ; coupée, elle le dit. Deux constats qui ne
/// diffèrent que par ce drapeau donnent deux rapports différents.
pub proof fn loi_la_ligne_de_telemetrie_suit_le_drapeau(c: Constat, d: Constat)
    ensures
        c.telemetrie ==> finit_par(
            texte_du_rapport(c),
            "\n  télémétrie    : active — couper avec SAMFLIX_TELEMETRY=0\n"@,
        ),
        !c.telemetrie ==> finit_par(texte_du_rapport(c), "\n  télémétrie    : coupée\n"@),
        ({
            &&& d.nom@ == c.nom@
            &&& d.version@ == c.version@
            &&& d.environnement@ == c.environnement@
            &&& d.origine@ == c.origine@
            &&& d.dmabuf_desactive == c.dmabuf_desactive
            &&& d.repertoire@ == c.repertoire@
            &&& d.telemetrie != c.telemetrie
        }) ==> texte_du_rapport(c) != texte_du_rapport(d),
{
    let debut = "Launcher\n  nom           : "@ + c.nom@ + "\n  version       : "@ + c.version@
        + "\n  environnement : "@ + c.environnement@ + " ("@ + c.origine@ + ")\n\nRendu\n  DMA-BUF       : "@
        + rendu_dit(c.dmabuf_desactive) + "\n\nJournaux et incidents\n  répertoire    : "@
        + c.repertoire@;
    let fin = "\n  télémétrie    : "@ + telemetrie_dit(c.telemetrie) + "\n"@;
    assert(texte_du_rapport(c) =~= debut + fin);
    assert((debut + fin).subrange(debut.len() as int, (debut + fin).len() as int) =~= fin);
    reveal_strlit("\n  télémétrie    : ");
    reveal_strlit("\n");
    reveal_strlit("active — couper avec SAMFLIX_TELEMETRY=0");
    reveal_strlit("coupée");
    reveal_strlit("\n  télémétrie    : active — couper avec SAMFLIX_TELEMETRY=0\n");
    reveal_strlit("\n  télémétrie    : coupée\n");
    assert(fin =~= if c.telemetrie {
        "\n  télémétrie    : active — couper avec SAMFLIX_TELEMETRY=0\n"@
    } else {
        "\n  télémétrie    : coupée\n"@
    });
    let fin_d = "\n  télémétrie    : "@ + telemetrie_dit(d.telemetrie) + "\n"@;
    assert(texte_du_rapport(d) =~= debut + fin_d ==> fin_d.len() != fin.len() ==> texte_du_rapport(
        c,
    ).len() != texte_du_rapport(d).len());
}

/// La ligne du rendu suit le drapeau du DMA-BUF : désactivé, elle nomme le
/// pilote qui en est la cause ; sinon, elle dit que WebKit décide.
pub proof fn loi_la_ligne_du_rendu_suit_le_drapeau(c: Constat)
    ensures
        c.dmabuf_desactive ==> exists|a: Seq<char>, b: Seq<char>|
            texte_du_rapport(c) == a + "\n  DMA-BUF       : désactivé (pilote NVIDIA détecté)\n"@ + b,
        !c.dmabuf_desactive ==> exists|a: Seq<char>, b: Seq<char>|
            texte_du_rapport(c) == a + "\n  DMA-BUF       : laissé à WebKit\n"@ + b,
{
    let a = "Launcher\n  nom           : "@ + c.nom@ + "\n  version       : "@ + c.version@
        + "\n  environnement : "@ + c.environnement@ + " ("@ + c.origine@ + ")\n\nRendu"@;
    let b = "\nJournaux et incidents\n  répertoire    : "@ + c.repertoire@ + "\n  télémétrie    : "@
        + telemetrie_dit(c.telemetrie) + "\n"@;
    reveal_strlit(")\n\nRendu\n  DMA-BUF       : ");
    reveal_strlit(")\n\nRendu");
    reveal_strlit("\n  DMA-BUF       : ");
    reveal_strlit("\n\nJournaux et incidents\n  répertoire    : ");
    reveal_strlit("\nJournaux et incidents\n  répertoire    : ");
    reveal_strlit("\n");
    reveal_strlit("désactivé (pilote NVIDIA détecté)");
    reveal_strlit("laissé à WebKit");
    reveal_strlit("\n  DMA-BUF       : désactivé (pilote NVIDIA détecté)\n");
    reveal_strlit("\n  DMA-BUF       : laissé à WebKit\n");
    if c.dmabuf_desactive {
        assert(texte_du_rapport(c) =~= a + "\n  DMA-BUF       : désactivé (pilote NVIDIA détecté)\n"@ + b);
    } else {
        assert(texte_du_rapport(c) =~= a + "\n  DMA-BUF       : laissé à WebKit\n"@ + b);
    }
}

} // verus!
