//! Un serveur HTTP minuscule, pour le développement et rien d'autre : ce
//! qu'il comprend d'une requête, et le texte de ce qu'il rend.
//!
//! [`Requete`] est ce que le serveur a compris ; [`Reponse`] ce qu'il rend.
//! Les deux sont des structures ordinaires, ce qui rend le routage
//! éprouvable sans ouvrir de socket : la socket reste à l'application.

use vstd::prelude::*;
use vstd::hash_map::StringHashMap;
use vstd::utf8::encode_utf8;
use crate::text::{
    append, ascii_lowercase, chars_of, contains, dec, find, find_in, lemma_chars_deep_view, lemma_find, lemma_pieces_len,
    owned, pieces, push_decimal, slice_of, split_on, split_words, string_of, to_ascii_lower, trim,
    trimmed, words,
};

verus! {

broadcast use vstd::std_specs::hash::group_hash_axioms;

/// Ce qu'une requête nous apprend.
#[derive(Debug, Clone, PartialEq, Eq)]
pub struct Requete {
    pub methode: String,
    pub chemin: String,
    pub corps: String,
}

/// Ce qu'on rend.
#[derive(Debug, Clone, PartialEq, Eq)]
pub struct Reponse {
    pub code: u16,
    pub type_mime: String,
    pub corps: String,
}

/// Le type de tout ce que le serveur rend en réponse à une commande.
pub const JSON: &'static str = "application/json";

/// Ce qui sépare les en-têtes du corps.
pub const FIN_DES_ENTETES: &'static str = "\r\n\r\n";

/// Les en-têtes qui suivent la longueur, dont ceux d'origine croisée : le
/// front tourne sur un autre port, et sans eux le navigateur refuse la
/// réponse sans que rien n'apparaisse côté serveur.
pub const SUITE_DES_ENTETES: &'static str = "\r\nAccess-Control-Allow-Origin: *\r\nAccess-Control-Allow-Headers: Content-Type\r\nAccess-Control-Allow-Methods: GET, POST, OPTIONS\r\nConnection: close\r\n\r\n";

/// Un chiffre hexadécimal, en minuscule.
pub open spec fn chiffre_hexa(d: nat) -> char {
    if d < 10 {
        ((48 + d) as u32) as char
    } else {
        ((87 + d) as u32) as char
    }
}

/// Comment JSON écrit un caractère dans une chaîne : guillemet et barre
/// oblique inverse précédés d'une barre, les cinq contrôles qui ont un nom
/// par ce nom, les autres caractères de contrôle en `\u00xx`, tout le reste
/// tel quel.
pub open spec fn echappe(c: char) -> Seq<char> {
    if c == '"' {
        seq!['\\', '"']
    } else if c == '\\' {
        seq!['\\', '\\']
    } else if c == '\u{8}' {
        seq!['\\', 'b']
    } else if c == '\t' {
        seq!['\\', 't']
    } else if c == '\n' {
        seq!['\\', 'n']
    } else if c == '\u{c}' {
        seq!['\\', 'f']
    } else if c == '\r' {
        seq!['\\', 'r']
    } else if (c as u32) < 0x20 {
        seq!['\\', 'u', '0', '0', chiffre_hexa(((c as u32) / 16) as nat), chiffre_hexa(((c as u32) % 16) as nat)]
    } else {
        seq![c]
    }
}

/// Le contenu d'une chaîne JSON : chaque caractère échappé, dans l'ordre.
pub open spec fn echappee(s: Seq<char>) -> Seq<char>
    decreases s.len(),
{
    if s.len() == 0 {
        Seq::empty()
    } else {
        echappee(s.drop_last()) + echappe(s.last())
    }
}

/// Une chaîne écrite en JSON : son contenu échappé, entre guillemets.
pub open spec fn chaine_json(s: Seq<char>) -> Seq<char> {
    seq!['"'] + echappee(s) + seq!['"']
}

/// `serde_json::to_string` sur une chaîne.
///
/// Le texte est ce que montrent `format_escaped_str` et sa table
/// d'échappement : le contenu échappé entre guillemets. L'écriture se fait
/// dans un `Vec<u8>`, qui ne refuse pas d'écriture, et une chaîne se
/// sérialise toujours : `to_string` ne rend pas d'erreur ici.
#[verifier::external_body]
fn encoder_en_json(s: &str) -> (r: String)
    ensures
        r@ == chaine_json(s@),
{
    match serde_json::to_string(s) {
        Ok(t) => t,
        Err(_) => String::new(),
    }
}

/// Un texte dont aucun caractère ne demande d'échappement s'écrit tel quel
/// entre les guillemets.
pub proof fn loi_un_texte_simple_s_ecrit_tel_quel(s: Seq<char>)
    requires
        forall|i: int| 0 <= i < s.len() ==> #[trigger] s[i] != '"' && s[i] != '\\' && (s[i] as u32)
            >= 0x20,
    ensures
        echappee(s) == s,
    decreases s.len(),
{
    if s.len() > 0 {
        assert forall|i: int| 0 <= i < s.drop_last().len() implies #[trigger] s.drop_last()[i] != '"'
            && s.drop_last()[i] != '\\' && (s.drop_last()[i] as u32) >= 0x20 by {
            assert(s.drop_last()[i] == s[i]);
        }
        loi_un_texte_simple_s_ecrit_tel_quel(s.drop_last());
        assert(s[s.len() - 1] == s.last());
        assert(s =~= s.drop_last() + seq![s.last()]);
    }
}

/// La raison qui accompagne un code.
pub open spec fn raison_de(code: u16) -> Seq<char> {
    if code == 204 {
        "No Content"@
    } else if code == 404 {
        "Not Found"@
    } else if code == 500 {
        "Internal Server Error"@
    } else {
        "OK"@
    }
}

/// La longueur d'un texte en octets, telle que `str::len` la compte.
pub open spec fn longueur_en_octets(s: Seq<char>) -> nat {
    (encode_utf8(s).len() as usize) as nat
}

/// Le texte d'une réponse, tel qu'il part sur la socket.
pub open spec fn texte_rendu(r: Reponse) -> Seq<char> {
    "HTTP/1.1 "@ + dec(r.code as nat) + " "@ + raison_de(r.code) + "\r\nContent-Type: "@
        + r.type_mime@ + "\r\nContent-Length: "@ + dec(longueur_en_octets(r.corps@))
        + SUITE_DES_ENTETES@ + r.corps@
}

/// Toute réponse porte les en-têtes d'origine croisée, quel que soit son
/// code ou son corps.
pub proof fn loi_toute_reponse_porte_l_origine_croisee(r: Reponse)
    ensures
        contains(texte_rendu(r), "Access-Control-Allow-Origin: *"@),
        contains(texte_rendu(r), "Access-Control-Allow-Headers: Content-Type"@),
{
    let avant = "HTTP/1.1 "@ + dec(r.code as nat) + " "@ + raison_de(r.code) + "\r\nContent-Type: "@
        + r.type_mime@ + "\r\nContent-Length: "@ + dec(longueur_en_octets(r.corps@));
    let t = texte_rendu(r);
    assert(t =~= avant + SUITE_DES_ENTETES@ + r.corps@);
    reveal_strlit("\r\nAccess-Control-Allow-Origin: *\r\nAccess-Control-Allow-Headers: Content-Type\r\nAccess-Control-Allow-Methods: GET, POST, OPTIONS\r\nConnection: close\r\n\r\n");
    reveal_strlit("Access-Control-Allow-Origin: *");
    reveal_strlit("Access-Control-Allow-Headers: Content-Type");
    let i: int = avant.len() as int + 2;
    assert(t.subrange(i, i + 30) =~= "Access-Control-Allow-Origin: *"@);
    let j: int = avant.len() as int + 34;
    assert(t.subrange(j, j + 42) =~= "Access-Control-Allow-Headers: Content-Type"@);
}

/// L'en-tête d'une requête : ce qui précède la première ligne vide, ou
/// tout si elle n'en a pas.
pub open spec fn entete_de(brut: Seq<char>) -> Seq<char> {
    match find(brut, FIN_DES_ENTETES@) {
        Some(i) => brut.take(i),
        None => brut,
    }
}

/// Une ligne privée du retour chariot qui la termine.
pub open spec fn sans_retour(l: Seq<char>) -> Seq<char> {
    if l.len() > 0 && l.last() == '\r' {
        l.drop_last()
    } else {
        l
    }
}

/// Chaque ligne privée de son retour chariot final.
pub open spec fn sans_retours(ls: Seq<Seq<char>>) -> Seq<Seq<char>> {
    ls.map_values(|l: Seq<char>| sans_retour(l))
}

/// Les lignes d'un texte, comme `str::lines` les rend : coupées sur `\n`,
/// chacune privée du `\r` qui précède ce `\n`, sans ligne vide finale.
pub open spec fn lignes_de(s: Seq<char>) -> Seq<Seq<char>> {
    let ps = pieces(s, '\n');
    let completes = sans_retours(ps.take(ps.len() - 1));
    if ps.last().len() == 0 {
        completes
    } else {
        completes.push(ps.last())
    }
}

/// Un en-tête : nom, en minuscules et sans blancs autour, et valeur sans
/// blancs autour ; rien pour une ligne sans deux-points.
pub open spec fn entree_de(ligne: Seq<char>) -> Option<(Seq<char>, Seq<char>)> {
    match find(ligne, ":"@) {
        Some(k) => Some((to_ascii_lower(trim(ligne.take(k))), trim(ligne.skip(k + 1)))),
        None => None,
    }
}

/// Les en-têtes de ces lignes ; un nom répété garde sa dernière valeur.
pub open spec fn entetes_de(ls: Seq<Seq<char>>) -> Map<Seq<char>, Seq<char>>
    decreases ls.len(),
{
    if ls.len() == 0 {
        Map::empty()
    } else {
        let avant = entetes_de(ls.drop_last());
        match entree_de(ls.last()) {
            Some((n, v)) => avant.insert(n, v),
            None => avant,
        }
    }
}

/// La méthode et le chemin, sans sa chaîne de requête, d'une ligne de
/// requête qui porte au moins deux mots.
pub open spec fn ligne_de_requete(ligne: Seq<char>) -> Option<(Seq<char>, Seq<char>)> {
    let ws = words(ligne);
    if ws.len() >= 2 {
        Some((ws[0], pieces(ws[1], '?')[0]))
    } else {
        None
    }
}

/// Ce que l'on comprend d'une requête brute : méthode, chemin, en-têtes.
pub open spec fn requete_comprise(brut: Seq<char>) -> Option<
    (Seq<char>, Seq<char>, Map<Seq<char>, Seq<char>>),
> {
    let ls = lignes_de(entete_de(brut));
    if ls.len() == 0 {
        None
    } else {
        match ligne_de_requete(ls[0]) {
            Some((m, c)) => Some((m, c, entetes_de(ls.skip(1)))),
            None => None,
        }
    }
}

/// La valeur de chiffres décimaux.
pub open spec fn valeur_decimale(s: Seq<char>) -> nat
    decreases s.len(),
{
    if s.len() == 0 {
        0
    } else {
        valeur_decimale(s.drop_last()) * 10 + ((s.last() as nat) - 48) as nat
    }
}

/// Que des chiffres décimaux ASCII.
pub open spec fn chiffres(s: Seq<char>) -> bool {
    forall|i: int| 0 <= i < s.len() ==> '0' <= #[trigger] s[i] <= '9'
}

/// Ce que `str::parse::<usize>` lit : un `+` facultatif, puis au moins un
/// chiffre, et rien d'autre ; rien si la valeur dépasse `usize`.
pub open spec fn entier_lu(s: Seq<char>) -> Option<usize> {
    let d = if s.len() > 0 && s[0] == '+' {
        s.skip(1)
    } else {
        s
    };
    if d.len() > 0 && chiffres(d) && valeur_decimale(d) <= usize::MAX {
        Some(valeur_decimale(d) as usize)
    } else {
        None
    }
}

/// La longueur annoncée par ces en-têtes : zéro quand l'en-tête manque ou
/// ne se lit pas.
pub open spec fn longueur_de(entetes: Map<Seq<char>, String>) -> usize {
    if entetes.contains_key("content-length"@) {
        match entier_lu(entetes["content-length"@]@) {
            Some(n) => n,
            None => 0,
        }
    } else {
        0
    }
}

/// Les vues des valeurs d'une table d'en-têtes.
pub open spec fn vues(m: Map<Seq<char>, String>) -> Map<Seq<char>, Seq<char>> {
    m.map_values(|v: String| v@)
}

impl Reponse {
    /// Une réponse JSON réussie.
    pub fn json(corps: String) -> (r: Reponse)
        ensures
            r.code == 200,
            r.type_mime@ == JSON@,
            r.corps == corps,
    {
        Reponse { code: 200, type_mime: owned(JSON), corps }
    }

    /// Une erreur, dans la même forme que celle du pont : le message écrit
    /// en chaîne JSON.
    pub fn erreur(code: u16, message: &str) -> (r: Reponse)
        ensures
            r.code == code,
            r.type_mime@ == JSON@,
            r.corps@ == chaine_json(message@),
    {
        Reponse { code, type_mime: owned(JSON), corps: encoder_en_json(message) }
    }

    /// La réponse qui ne porte rien : `null`.
    pub fn vide() -> (r: Reponse)
        ensures
            r.code == 200,
            r.type_mime@ == JSON@,
            r.corps@ == "null"@,
    {
        Reponse::json(owned("null"))
    }
}

/// La raison d'un code.
pub fn raison(code: u16) -> (r: &'static str)
    ensures
        r@ == raison_de(code),
{
    if code == 204 {
        "No Content"
    } else if code == 404 {
        "Not Found"
    } else if code == 500 {
        "Internal Server Error"
    } else {
        "OK"
    }
}

/// Le texte d'une réponse, tel qu'il part sur la socket.
pub fn rendre(reponse: &Reponse) -> (r: String)
    ensures
        r@ == texte_rendu(*reponse),
{
    let mut t = owned("HTTP/1.1 ");
    push_decimal(&mut t, reponse.code as u64);
    append(&mut t, " ");
    append(&mut t, raison(reponse.code));
    append(&mut t, "\r\nContent-Type: ");
    append(&mut t, reponse.type_mime.as_str());
    append(&mut t, "\r\nContent-Length: ");
    let octets: usize = reponse.corps.as_str().len();
    push_decimal(&mut t, octets as u64);
    append(&mut t, SUITE_DES_ENTETES);
    append(&mut t, reponse.corps.as_str());
    t
}

/// Une ligne privée de son retour chariot final.
fn retirer_retour(l: &Vec<char>) -> (r: Vec<char>)
    ensures
        r@ == sans_retour(l@),
{
    if l.len() > 0 && l[l.len() - 1] == '\r' {
        slice_of(l, 0, l.len() - 1)
    } else {
        slice_of(l, 0, l.len())
    }
}

/// `str::lines`.
fn lignes(s: &Vec<char>) -> (r: Vec<Vec<char>>)
    ensures
        r.deep_view() == lignes_de(s@),
{
    let ps = split_on(s, '\n');
    let ghost pv = ps.deep_view();
    proof {
        lemma_pieces_len(s@, crate::text::Sep::Char('\n'));
    }
    let n: usize = ps.len();
    let mut out: Vec<Vec<char>> = Vec::new();
    let mut i: usize = 0;
    while i + 1 < n
        invariant
            n == ps.len(),
            n >= 1,
            i + 1 <= n,
            pv == ps.deep_view(),
            pv == pieces(s@, '\n'),
            out.deep_view() == sans_retours(pv.take(i as int)),
        decreases n - i,
    {
        proof {
            lemma_chars_deep_view(ps@[i as int]);
        }
        let l = retirer_retour(&ps[i]);
        let ghost ov = out.deep_view();
        let ghost lv = l@;
        proof {
            lemma_chars_deep_view(l);
        }
        out.push(l);
        assert(out.deep_view() =~= ov.push(lv));
        assert(sans_retours(pv.take(i + 1)) =~= sans_retours(pv.take(i as int)).push(
            sans_retour(pv[i as int]),
        ));
        i = i + 1;
    }
    proof {
        lemma_chars_deep_view(ps@[n - 1]);
        assert(pv.len() == n);
        assert(pv[n - 1] == ps@[n - 1]@);
        assert(pv.last() == ps@[n - 1]@);
    }
    if ps[n - 1].len() > 0 {
        let derniere = slice_of(&ps[n - 1], 0, ps[n - 1].len());
        let ghost ov = out.deep_view();
        let ghost dv = derniere@;
        proof {
            lemma_chars_deep_view(derniere);
        }
        assert(dv =~= pv.last());
        out.push(derniere);
        assert(out.deep_view() =~= ov.push(dv));
        assert(out.deep_view() =~= lignes_de(s@));
    } else {
        assert(out.deep_view() =~= lignes_de(s@));
    }
    out
}

/// Un en-tête d'une ligne, s'il y en a un.
fn entree(ligne: &Vec<char>) -> (r: Option<(String, String)>)
    ensures
        match r {
            Some((n, v)) => entree_de(ligne@) == Some((n@, v@)),
            None => entree_de(ligne@) is None,
        },
{
    let deux_points = chars_of(":");
    proof {
        reveal_strlit(":");
        assert(deux_points@.len() == 1);
        lemma_find(ligne@, deux_points@);
    }
    match find_in(ligne, &deux_points) {
        Some(k) => {
            let n: usize = ligne.len();
            assert(k + 1 <= n);
            let nom = ascii_lowercase(&trimmed(&slice_of(ligne, 0, k)));
            let valeur = trimmed(&slice_of(ligne, k + 1, n));
            assert(ligne@.subrange(0, k as int) =~= ligne@.take(k as int));
            assert(ligne@.subrange(k + 1, ligne@.len() as int) =~= ligne@.skip(k + 1));
            Some((string_of(&nom), string_of(&valeur)))
        },
        None => None,
    }
}

/// La ligne de requête et les en-têtes, analysés ; rien sur ce qu'on ne sait
/// pas lire, qui n'a pas à faire tomber le serveur.
pub fn analyser(brut: &str) -> (r: Option<(String, String, StringHashMap<String>)>)
    ensures
        match r {
            Some((m, c, h)) => requete_comprise(brut@) == Some((m@, c@, vues(h@))),
            None => requete_comprise(brut@) is None,
        },
{
    let b = chars_of(brut);
    proof {
        lemma_find(b@, FIN_DES_ENTETES@);
    }
    let entete = match find_in(&b, &chars_of(FIN_DES_ENTETES)) {
        Some(i) => slice_of(&b, 0, i),
        None => slice_of(&b, 0, b.len()),
    };
    assert(entete@ =~= entete_de(brut@));
    let ls = lignes(&entete);
    let ghost lv = ls.deep_view();
    if ls.len() == 0 {
        return None;
    }
    proof {
        lemma_chars_deep_view(ls@[0]);
    }
    let ws = split_words(&ls[0]);
    if ws.len() < 2 {
        return None;
    }
    proof {
        lemma_chars_deep_view(ws@[0]);
        lemma_chars_deep_view(ws@[1]);
    }
    let morceaux = split_on(&ws[1], '?');
    proof {
        lemma_pieces_len(ws@[1]@, crate::text::Sep::Char('?'));
        lemma_chars_deep_view(morceaux@[0]);
    }
    let methode = string_of(&ws[0]);
    let chemin = string_of(&morceaux[0]);
    let mut entetes: StringHashMap<String> = StringHashMap::new();
    let mut i: usize = 1;
    while i < ls.len()
        invariant
            1 <= i <= ls.len(),
            lv == ls.deep_view(),
            vues(entetes@) == entetes_de(lv.subrange(1, i as int)),
        decreases ls.len() - i,
    {
        proof {
            lemma_chars_deep_view(ls@[i as int]);
            assert(lv.subrange(1, i + 1).drop_last() =~= lv.subrange(1, i as int));
        }
        match entree(&ls[i]) {
            Some((nom, valeur)) => {
                let ghost avant = entetes@;
                let ghost nv = nom@;
                let ghost vv = valeur@;
                entetes.insert(nom, valeur);
                assert(vues(entetes@) =~= vues(avant).insert(nv, vv));
            },
            None => {},
        }
        i = i + 1;
    }
    assert(lv.subrange(1, lv.len() as int) =~= lv.skip(1));
    Some((methode, chemin, entetes))
}

/// `str::parse::<usize>`.
pub fn lire_entier(s: &str) -> (r: Option<usize>)
    ensures
        r == entier_lu(s@),
{
    let c = chars_of(s);
    let debut: usize = if c.len() > 0 && c[0] == '+' {
        1
    } else {
        0
    };
    let ghost d = if s@.len() > 0 && s@[0] == '+' {
        s@.skip(1)
    } else {
        s@
    };
    assert(d =~= c@.skip(debut as int));
    if debut >= c.len() {
        return None;
    }
    let mut valeur: usize = 0;
    let mut i: usize = debut;
    while i < c.len()
        invariant
            debut <= i <= c.len(),
            debut < c.len(),
            d =~= c@.skip(debut as int),
            d == (if s@.len() > 0 && s@[0] == '+' { s@.skip(1) } else { s@ }),
            chiffres(c@.subrange(debut as int, i as int)),
            valeur == valeur_decimale(c@.subrange(debut as int, i as int)),
        decreases c.len() - i,
    {
        let ch = c[i];
        let ghost prefixe = c@.subrange(debut as int, i + 1);
        assert(prefixe.drop_last() =~= c@.subrange(debut as int, i as int));
        assert(d.take(i - debut + 1) =~= prefixe);
        if !('0' <= ch && ch <= '9') {
            assert(!chiffres(d)) by {
                assert(d[i - debut] == ch);
            }
            assert(entier_lu(s@) is None);
            return None;
        }
        let chiffre: usize = (ch as u32 - 48) as usize;
        assert(valeur_decimale(prefixe) == valeur * 10 + chiffre);
        match valeur.checked_mul(10) {
            Some(v) => match v.checked_add(chiffre) {
                Some(w) => {
                    valeur = w;
                },
                None => {
                    proof {
                        lemma_prefix_bound(d, i - debut + 1);
                    }
                    assert(entier_lu(s@) is None);
                    return None;
                },
            },
            None => {
                proof {
                    lemma_prefix_bound(d, i - debut + 1);
                }
                assert(entier_lu(s@) is None);
                return None;
            },
        }
        i = i + 1;
    }
    assert(c@.subrange(debut as int, c.len() as int) =~= d);
    Some(valeur)
}

/// The value of a prefix of digits never exceeds the value of them all.
proof fn lemma_prefix_bound(d: Seq<char>, k: int)
    requires
        0 <= k <= d.len(),
    ensures
        chiffres(d) ==> valeur_decimale(d.take(k)) <= valeur_decimale(d),
    decreases d.len(),
{
    if k < d.len() && chiffres(d) {
        assert(chiffres(d.drop_last())) by {
            assert forall|i: int| 0 <= i < d.drop_last().len() implies '0' <= #[trigger] d.drop_last()[i]
                <= '9' by {
                assert(d.drop_last()[i] == d[i]);
            }
        }
        lemma_prefix_bound(d.drop_last(), k);
        assert(d.drop_last().take(k) =~= d.take(k));
    }
    if k == d.len() {
        assert(d.take(k) =~= d);
    }
}

/// Combien d'octets de corps la requête annonce ; zéro quand l'en-tête
/// manque ou ne se lit pas, plutôt qu'une attente sans fin.
pub fn longueur_annoncee(entetes: &StringHashMap<String>) -> (r: usize)
    ensures
        r == longueur_de(entetes@),
{
    match entetes.get("content-length") {
        Some(v) => {
            proof {
                reveal_strlit("content-length");
            }
            match lire_entier(v.as_str()) {
                Some(n) => n,
                None => 0,
            }
        },
        None => 0,
    }
}

/// Ce qui suit l'analyse d'une requête.
#[derive(Debug, Clone, Copy, PartialEq, Eq, Structural)]
pub enum Suite {
    /// Le préflight : le navigateur demande la permission avant d'envoyer
    /// du JSON, le front tournant sur un autre port.
    Preflight,
    /// Le flux d'événements.
    Flux,
    /// Une requête à router, une fois son corps lu.
    Routage,
}

/// Le chemin du flux d'événements.
pub const CHEMIN_DU_FLUX: &'static str = "/evenements";

/// L'en-tête du flux d'événements.
pub const ENTETE_DU_FLUX: &'static str = "HTTP/1.1 200 OK\r\nContent-Type: text/event-stream\r\nCache-Control: no-cache\r\nAccess-Control-Allow-Origin: *\r\nConnection: keep-alive\r\n\r\n";

/// Ce qui suit une requête de cette méthode, vers ce chemin.
pub open spec fn suite_pour(methode: Seq<char>, chemin: Seq<char>) -> Suite {
    if methode == "OPTIONS"@ {
        Suite::Preflight
    } else if chemin == CHEMIN_DU_FLUX@ {
        Suite::Flux
    } else {
        Suite::Routage
    }
}

/// Ce qui suit une requête analysée.
pub fn suite_de(methode: &str, chemin: &str) -> (r: Suite)
    ensures
        r == suite_pour(methode@, chemin@),
{
    if crate::log::is_named(methode, "OPTIONS") {
        Suite::Preflight
    } else if crate::log::is_named(chemin, CHEMIN_DU_FLUX) {
        Suite::Flux
    } else {
        Suite::Routage
    }
}

/// La réponse au préflight : sans contenu, et avec les en-têtes d'origine
/// croisée que [`rendre`] pose sur toute réponse.
pub fn preflight() -> (r: Reponse)
    ensures
        r.code == 204,
        r.type_mime@ == "text/plain"@,
        r.corps@.len() == 0,
{
    Reponse { code: 204, type_mime: owned("text/plain"), corps: String::new() }
}

/// Le corps déjà reçu avec l'en-tête : ce qui suit la première ligne vide,
/// rien s'il n'y en a pas.
pub open spec fn corps_recu(texte: Seq<char>) -> Seq<char> {
    match find(texte, FIN_DES_ENTETES@) {
        Some(i) => texte.skip(i + FIN_DES_ENTETES@.len()),
        None => Seq::empty(),
    }
}

/// L'en-tête est-il entier : la ligne vide qui le termine est-elle arrivée ?
pub fn entete_complet(texte: &str) -> (r: bool)
    ensures
        r == (find(texte@, FIN_DES_ENTETES@) is Some),
{
    find_in(&chars_of(texte), &chars_of(FIN_DES_ENTETES)).is_some()
}

/// Le corps déjà reçu avec l'en-tête.
pub fn corps_deja_recu(texte: &str) -> (r: String)
    ensures
        r@ == corps_recu(texte@),
{
    let t = chars_of(texte);
    let fin = chars_of(FIN_DES_ENTETES);
    proof {
        lemma_find(t@, fin@);
    }
    match find_in(&t, &fin) {
        Some(i) => {
            let n: usize = t.len();
            assert(i + fin@.len() <= n);
            let debut: usize = i + fin.len();
            let corps = slice_of(&t, debut, n);
            assert(corps@ =~= t@.skip(debut as int));
            string_of(&corps)
        },
        None => String::new(),
    }
}

/// Reste-t-il du corps à lire ?
pub fn corps_incomplet(recus: usize, attendu: usize) -> (r: bool)
    ensures
        r == (recus < attendu),
{
    recus < attendu
}

/// Une trame du flux d'événements : la charge, suivie d'une ligne vide.
pub fn trame(charge: &str) -> (r: String)
    ensures
        r@ == "data: "@ + charge@ + "\n\n"@,
{
    let mut t = owned("data: ");
    append(&mut t, charge);
    append(&mut t, "\n\n");
    t
}

} // verus!
