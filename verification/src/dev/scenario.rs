//! Les états que l'interface doit savoir montrer.
//!
//! La plupart sont pénibles ou impossibles à provoquer pour de bon : une
//! installation figée à mi-parcours, un pack dont trois mods sont
//! introuvables, un compte sans licence, un hôte hors ligne. Un scénario les
//! rend tous accessibles en une requête.

use vstd::prelude::*;
use crate::commandes::Compte;
use crate::commandes::pack::{champs, CompteRendu};
use crate::log::is_named;
use crate::phase::Phase;
use crate::text::owned;
use crate::tracker::Progress;

verus! {

/// L'état que le serveur sert.
#[derive(Debug, Clone, Copy, PartialEq, Eq, Structural)]
pub enum Etat {
    /// Personne n'est connecté : l'écran s'ouvre sur la connexion.
    Deconnecte,
    /// Compte Microsoft valide, mais sans licence Minecraft.
    SansLicence,
    /// Connecté, rien d'installé : le bouton dit INSTALLER.
    RienInstalle,
    /// Connecté, pack posé et conforme : le bouton dit JOUER.
    PretAJouer,
    /// Pack posé mais le verrou publié a changé : JOUER, avec rattrapage.
    ARattraper,
    /// L'hôte du pack n'a pas répondu : l'écart est inconnu.
    HorsLigne,
    /// Une installation est en cours, figée à mi-parcours.
    EnInstallation,
    /// L'installation s'est faite, mais trois mods manquent.
    ModsIntrouvables,
}

/// Ce que le bouton propose.
#[derive(Debug, Clone, Copy, PartialEq, Eq, Structural)]
pub enum Action {
    Installer,
    Jouer,
}

/// Ce que le disque dit du pack publié.
#[derive(Debug, Clone, Copy, PartialEq, Eq, Structural)]
pub enum Ecart {
    Absent,
    AJour,
    MiseAJour,
    Inconnu,
}

/// Ce que le disque et le pack publié disent.
#[derive(Debug, Clone, PartialEq, Eq)]
pub struct EtatDuPack {
    pub action: Action,
    pub ecart: Ecart,
    pub hors_ligne: bool,
    pub installe: bool,
    pub nom: Option<String>,
    pub version: Option<String>,
    pub java: Option<u32>,
    pub mods: u32,
    pub generation: u64,
}

/// Un billet du fil, son corps encore en markdown.
#[derive(Debug, Clone, PartialEq, Eq)]
pub struct Billet {
    pub id: String,
    pub titre: String,
    pub date: String,
    pub epinglee: bool,
    pub image: Option<String>,
    pub corps: String,
}

/// Le fil de nouvelles.
#[derive(Debug, Clone, PartialEq, Eq)]
pub struct Fil {
    pub billets: Vec<Billet>,
    pub hors_ligne: bool,
}

/// Ce que le serveur annonce de lui-même, à la racine.
#[derive(Debug, Clone, PartialEq, Eq)]
pub struct Accueil {
    pub scenario: String,
    pub scenarios: Vec<String>,
    pub commandes: Vec<String>,
}

/// Le nom par lequel on demande un scénario.
pub open spec fn nom_de(e: Etat) -> Seq<char> {
    match e {
        Etat::Deconnecte => "deconnecte"@,
        Etat::SansLicence => "sans-licence"@,
        Etat::RienInstalle => "rien-installe"@,
        Etat::PretAJouer => "pret-a-jouer"@,
        Etat::ARattraper => "a-rattraper"@,
        Etat::HorsLigne => "hors-ligne"@,
        Etat::EnInstallation => "en-installation"@,
        Etat::ModsIntrouvables => "mods-introuvables"@,
    }
}

/// Le pseudo, l'identifiant et la licence du compte d'un scénario.
pub open spec fn compte_de(e: Etat) -> Option<(Seq<char>, Seq<char>, bool)> {
    match e {
        Etat::Deconnecte => None,
        Etat::SansLicence => Some(("SansLicence"@, "00000000-0000-0000-0000-00000000dead"@, false)),
        _ => Some(("thesam1798"@, "9f6e4a0c-1b2d-4e3f-8a9b-0c1d2e3f4a5b"@, true)),
    }
}

/// Ce que le bouton propose, l'écart, l'installation et la connexion au
/// pack distant, selon le scénario.
pub open spec fn pack_de(e: Etat) -> (Action, Ecart, bool, bool) {
    match e {
        Etat::Deconnecte | Etat::SansLicence | Etat::RienInstalle => (
            Action::Installer,
            Ecart::Absent,
            false,
            false,
        ),
        Etat::PretAJouer | Etat::ModsIntrouvables => (Action::Jouer, Ecart::AJour, true, false),
        Etat::ARattraper | Etat::EnInstallation => (Action::Jouer, Ecart::MiseAJour, true, false),
        Etat::HorsLigne => (Action::Jouer, Ecart::Inconnu, true, true),
    }
}

/// Les champs d'un avancement, en une valeur.
pub open spec fn vue_avancement(p: Progress) -> (
    Phase,
    bool,
    Option<Seq<char>>,
    Option<Seq<char>>,
    u64,
    u64,
    usize,
    usize,
    bool,
    u64,
    Option<u64>,
) {
    (
        p.phase,
        p.done,
        crate::tracker::opt_chars(p.note),
        crate::tracker::opt_chars(p.file),
        p.bytes,
        p.total,
        p.files,
        p.files_total,
        p.active,
        p.rate,
        p.remaining,
    )
}

/// L'avancement affiché à l'ouverture : une installation figée pour
/// `en-installation`, un état atteint et rien d'autre pour les autres.
pub open spec fn avancement_de(e: Etat) -> (
    Phase,
    bool,
    Option<Seq<char>>,
    Option<Seq<char>>,
    u64,
    u64,
    usize,
    usize,
    bool,
    u64,
    Option<u64>,
) {
    match e {
        Etat::EnInstallation => (
            Phase::Mods,
            false,
            Some("128 mods, dont 43 ajoutés par dépendance"@),
            Some("sodium-neoforge-0.6.13.jar"@),
            312_000_000,
            840_000_000,
            47,
            128,
            true,
            8_400_000,
            Some(63),
        ),
        Etat::Deconnecte | Etat::SansLicence => (
            Phase::SignIn,
            false,
            None,
            None,
            0,
            0,
            0,
            0,
            false,
            0,
            None,
        ),
        Etat::RienInstalle => (Phase::License, true, None, None, 0, 0, 0, 0, false, 0, None),
        _ => (Phase::Ready, true, None, None, 0, 0, 0, 0, false, 0, None),
    }
}

/// Le verdict d'une partie simulée.
pub open spec fn verdict_simule(e: Etat, avec_partie: bool) -> Seq<char> {
    if avec_partie {
        "Partie terminée."@
    } else if e == Etat::ARattraper {
        "Le pack est installé."@
    } else {
        "Le pack était déjà à jour : rien à poser."@
    }
}

/// Un avancement qui ne dit rien : la connexion, sans rien compter.
fn vide() -> (r: Progress)
    ensures
        vue_avancement(r) == (Phase::SignIn, false, None::<Seq<char>>, None::<Seq<char>>, 0u64, 0u64, 0usize, 0usize, false, 0u64, None::<u64>),
{
    Progress {
        phase: Phase::SignIn,
        done: false,
        note: None,
        file: None,
        bytes: 0,
        total: 0,
        files: 0,
        files_total: 0,
        active: false,
        rate: 0,
        remaining: None,
    }
}

impl Etat {
    /// Tous les scénarios, avec le nom par lequel on les demande.
    pub const TOUS: [(&'static str, Etat); 8] = [
        ("deconnecte", Etat::Deconnecte),
        ("sans-licence", Etat::SansLicence),
        ("rien-installe", Etat::RienInstalle),
        ("pret-a-jouer", Etat::PretAJouer),
        ("a-rattraper", Etat::ARattraper),
        ("hors-ligne", Etat::HorsLigne),
        ("en-installation", Etat::EnInstallation),
        ("mods-introuvables", Etat::ModsIntrouvables),
    ];

    /// Le nom du scénario.
    pub fn nom(self) -> (r: &'static str)
        ensures
            r@ == nom_de(self),
    {
        match self {
            Etat::Deconnecte => "deconnecte",
            Etat::SansLicence => "sans-licence",
            Etat::RienInstalle => "rien-installe",
            Etat::PretAJouer => "pret-a-jouer",
            Etat::ARattraper => "a-rattraper",
            Etat::HorsLigne => "hors-ligne",
            Etat::EnInstallation => "en-installation",
            Etat::ModsIntrouvables => "mods-introuvables",
        }
    }

    /// Le scénario de ce nom, s'il y en a un.
    pub fn depuis_nom(nom: &str) -> (r: Option<Etat>)
        ensures
            match r {
                Some(e) => nom_de(e) == nom@,
                None => forall|e: Etat| nom_de(e) != nom@,
            },
    {
        let tous = [
            Etat::Deconnecte,
            Etat::SansLicence,
            Etat::RienInstalle,
            Etat::PretAJouer,
            Etat::ARattraper,
            Etat::HorsLigne,
            Etat::EnInstallation,
            Etat::ModsIntrouvables,
        ];
        let mut i: usize = 0;
        while i < 8
            invariant
                i <= 8,
                tous@ == seq![
                    Etat::Deconnecte,
                    Etat::SansLicence,
                    Etat::RienInstalle,
                    Etat::PretAJouer,
                    Etat::ARattraper,
                    Etat::HorsLigne,
                    Etat::EnInstallation,
                    Etat::ModsIntrouvables,
                ],
                forall|j: int| 0 <= j < i ==> nom_de(#[trigger] tous@[j]) != nom@,
            decreases 8 - i,
        {
            let e = tous[i];
            if is_named(nom, e.nom()) {
                return Some(e);
            }
            i = i + 1;
        }
        proof {
            assert forall|e: Etat| nom_de(e) != nom@ by {
                match e {
                    Etat::Deconnecte => assert(tous@[0] == e),
                    Etat::SansLicence => assert(tous@[1] == e),
                    Etat::RienInstalle => assert(tous@[2] == e),
                    Etat::PretAJouer => assert(tous@[3] == e),
                    Etat::ARattraper => assert(tous@[4] == e),
                    Etat::HorsLigne => assert(tous@[5] == e),
                    Etat::EnInstallation => assert(tous@[6] == e),
                    Etat::ModsIntrouvables => assert(tous@[7] == e),
                }
            }
        }
        None
    }

    /// Le compte, ou rien quand personne n'est connecté.
    pub fn compte(self) -> (r: Option<Compte>)
        ensures
            match (r, compte_de(self)) {
                (Some(c), Some((p, u, l))) => c.pseudo@ == p && c.uuid@ == u && c.possede_le_jeu == l,
                (None, None) => true,
                _ => false,
            },
    {
        match self {
            Etat::Deconnecte => None,
            Etat::SansLicence => Some(
                Compte {
                    pseudo: owned("SansLicence"),
                    uuid: owned("00000000-0000-0000-0000-00000000dead"),
                    possede_le_jeu: false,
                },
            ),
            _ => Some(
                Compte {
                    pseudo: owned("thesam1798"),
                    uuid: owned("9f6e4a0c-1b2d-4e3f-8a9b-0c1d2e3f4a5b"),
                    possede_le_jeu: true,
                },
            ),
        }
    }

    /// Ce que le disque et le pack publié disent : le pack de démonstration,
    /// dans l'état du scénario.
    pub fn pack(self) -> (r: EtatDuPack)
        ensures
            (r.action, r.ecart, r.installe, r.hors_ligne) == pack_de(self),
            r.nom matches Some(n) && n@ == "samflix"@,
            r.version matches Some(v) && v@ == "0.1.0"@,
            r.java == Some(21u32),
            r.mods == 128,
            r.generation == 0,
    {
        let (action, ecart, installe, hors_ligne) = match self {
            Etat::Deconnecte | Etat::SansLicence | Etat::RienInstalle => (
                Action::Installer,
                Ecart::Absent,
                false,
                false,
            ),
            Etat::PretAJouer | Etat::ModsIntrouvables => (Action::Jouer, Ecart::AJour, true, false),
            Etat::ARattraper | Etat::EnInstallation => (
                Action::Jouer,
                Ecart::MiseAJour,
                true,
                false,
            ),
            Etat::HorsLigne => (Action::Jouer, Ecart::Inconnu, true, true),
        };
        EtatDuPack {
            action,
            ecart,
            hors_ligne,
            installe,
            nom: Some(owned("samflix")),
            version: Some(owned("0.1.0")),
            java: Some(21),
            mods: 128,
            generation: 0,
        }
    }

    /// L'avancement affiché à l'ouverture.
    pub fn avancement(self) -> (r: Progress)
        ensures
            vue_avancement(r) == avancement_de(self),
    {
        match self {
            Etat::EnInstallation => Progress {
                phase: Phase::Mods,
                done: false,
                note: Some(owned("128 mods, dont 43 ajoutés par dépendance")),
                file: Some(owned("sodium-neoforge-0.6.13.jar")),
                bytes: 312_000_000,
                total: 840_000_000,
                files: 47,
                files_total: 128,
                active: true,
                rate: 8_400_000,
                remaining: Some(63),
            },
            Etat::Deconnecte | Etat::SansLicence => Progress { phase: Phase::SignIn, done: false, ..vide() },
            Etat::PretAJouer | Etat::ARattraper | Etat::HorsLigne | Etat::ModsIntrouvables => {
                Progress { phase: Phase::Ready, done: true, ..vide() }
            },
            Etat::RienInstalle => Progress { phase: Phase::License, done: true, ..vide() },
        }
    }

    /// Ce qu'une partie rend, une fois le jeu refermé.
    pub fn partie(self, avec_partie: bool) -> (r: CompteRendu)
        ensures
            champs(r).0 == verdict_simule(self, avec_partie),
            r.rattrapee == (self == Etat::ARattraper),
            r.hors_ligne == (self == Etat::HorsLigne),
            r.purge@.len() == 0,
            r.introuvables.deep_view() == if self == Etat::ModsIntrouvables {
                seq!["journeymap"@, "waystones"@, "litematica"@]
            } else {
                Seq::<Seq<char>>::empty()
            },
            r.ecarts.deep_view() == if self == Etat::ARattraper {
                seq!["jei : 19.21.1.317 au lieu de 19.21.0.247"@]
            } else {
                Seq::<Seq<char>>::empty()
            },
    {
        let verdict = if avec_partie {
            owned("Partie terminée.")
        } else if self == Etat::ARattraper {
            owned("Le pack est installé.")
        } else {
            owned("Le pack était déjà à jour : rien à poser.")
        };
        let mut introuvables: Vec<String> = Vec::new();
        if self == Etat::ModsIntrouvables {
            introuvables.push(owned("journeymap"));
            introuvables.push(owned("waystones"));
            introuvables.push(owned("litematica"));
        }
        let mut ecarts: Vec<String> = Vec::new();
        if self == Etat::ARattraper {
            ecarts.push(owned("jei : 19.21.1.317 au lieu de 19.21.0.247"));
        }
        assert(introuvables.deep_view() =~= if self == Etat::ModsIntrouvables {
            seq!["journeymap"@, "waystones"@, "litematica"@]
        } else {
            Seq::<Seq<char>>::empty()
        });
        assert(ecarts.deep_view() =~= if self == Etat::ARattraper {
            seq!["jei : 19.21.1.317 au lieu de 19.21.0.247"@]
        } else {
            Seq::<Seq<char>>::empty()
        });
        CompteRendu {
            verdict,
            rattrapee: self == Etat::ARattraper,
            introuvables,
            ecarts,
            hors_ligne: self == Etat::HorsLigne,
            purge: Vec::new(),
        }
    }

    /// Le fil de nouvelles : les billets de démonstration dans tous les
    /// scénarios sauf `hors-ligne`, qui n'en a aucun.
    pub fn fil(self) -> (r: Fil)
        ensures
            r.hors_ligne == (self == Etat::HorsLigne),
            if self == Etat::HorsLigne {
                r.billets@.len() == 0
            } else {
                &&& r.billets@.len() == 2
                &&& vue_billet(r.billets@[0]) == billet_d_ouverture()
                &&& vue_billet(r.billets@[1]) == billet_des_regles()
            },
    {
        let billets = if self == Etat::HorsLigne {
            Vec::new()
        } else {
            billets_de_demonstration()
        };
        Fil { billets, hors_ligne: self == Etat::HorsLigne }
    }
}

/// Le corps du billet d'ouverture.
pub const CORPS_OUVERTURE: &'static str = "Le launcher installe le pack et lance le jeu **en un seul geste**.\n\nCe qu'il faut savoir :\n\n- il installe ce que le serveur charge, à la version près\n- il pose le Java qu'il faut, sans toucher à celui du système\n- il ne réinstalle rien tant que le pack n'a pas bougé\n\nLes réglages sont dans `Configuration`.";

/// Le corps du billet des règles, qui exerce tout le markdown reconnu.
pub const CORPS_REGLES: &'static str = "Trois règles, et elles tiennent en une ligne chacune.\n\n## Le respect\n\nPas d'insulte, pas de harcèlement. C'est la seule qui mène à un bannissement immédiat.\n\n## Les constructions\n\nOn ne casse pas chez les autres. Un `/back` mal placé n'est pas une excuse.\n\n---\n\nLe détail est sur [la page des règles](https://exemple.invalid/regles).";

/// Les champs d'un billet, en une valeur.
pub open spec fn vue_billet(b: Billet) -> (Seq<char>, Seq<char>, Seq<char>, bool, Option<Seq<char>>, Seq<char>) {
    (b.id@, b.titre@, b.date@, b.epinglee, crate::tracker::opt_chars(b.image), b.corps@)
}

/// Le billet d'ouverture : épinglé, sans image.
pub open spec fn billet_d_ouverture() -> (Seq<char>, Seq<char>, Seq<char>, bool, Option<Seq<char>>, Seq<char>) {
    ("2026-09-ouverture"@, "Le launcher est là"@, "2026-09-18T18:00:00Z"@, true, None, CORPS_OUVERTURE@)
}

/// Le billet des règles : non épinglé, sans image.
pub open spec fn billet_des_regles() -> (Seq<char>, Seq<char>, Seq<char>, bool, Option<Seq<char>>, Seq<char>) {
    ("2026-09-regles"@, "Les règles du serveur"@, "2026-09-17T12:00:00Z"@, false, None, CORPS_REGLES@)
}

/// Deux billets, dont un qui exerce tout le markdown reconnu : titres,
/// listes, gras, code, lien, séparateur.
pub fn billets_de_demonstration() -> (r: Vec<Billet>)
    ensures
        r@.len() == 2,
        vue_billet(r@[0]) == billet_d_ouverture(),
        vue_billet(r@[1]) == billet_des_regles(),
{
    let mut billets: Vec<Billet> = Vec::new();
    billets.push(
        Billet {
            id: owned("2026-09-ouverture"),
            titre: owned("Le launcher est là"),
            date: owned("2026-09-18T18:00:00Z"),
            epinglee: true,
            image: None,
            corps: owned(CORPS_OUVERTURE),
        },
    );
    billets.push(
        Billet {
            id: owned("2026-09-regles"),
            titre: owned("Les règles du serveur"),
            date: owned("2026-09-17T12:00:00Z"),
            epinglee: false,
            image: None,
            corps: owned(CORPS_REGLES),
        },
    );
    billets
}

/// Deux scénarios distincts ne portent jamais le même nom.
pub proof fn loi_chaque_scenario_se_demande_par_son_nom(a: Etat, b: Etat)
    ensures
        nom_de(a) == nom_de(b) ==> a == b,
{
    reveal_strlit("deconnecte");
    reveal_strlit("sans-licence");
    reveal_strlit("rien-installe");
    reveal_strlit("pret-a-jouer");
    reveal_strlit("a-rattraper");
    reveal_strlit("hors-ligne");
    reveal_strlit("en-installation");
    reveal_strlit("mods-introuvables");
    if nom_de(a) == nom_de(b) && a != b {
        assert(nom_de(a).len() != nom_de(b).len() || exists|i: int|
            0 <= i < nom_de(a).len() && nom_de(a)[i] != nom_de(b)[i]) by {
            if nom_de(a).len() == nom_de(b).len() {
                assert(nom_de(a)[0] != nom_de(b)[0] || nom_de(a)[1] != nom_de(b)[1] || nom_de(a)[2]
                    != nom_de(b)[2]);
            }
        }
    }
}

} // verus!
