//! The launcher without its window, for working on the interface: the same
//! commands, served over HTTP, with a state picked by one request.
//!
//! What is decided here: which route a path designates, what state a
//! command leaves the scenario in, what a simulated installation reports
//! step by step, and what the server says about itself. The socket, the
//! waits and the events stay with the application.

pub mod http;
pub mod scenario;

use vstd::prelude::*;
use crate::log::is_named;
use crate::phase::Phase;
use crate::text::{append, chars_of, owned, slice_of, starts, starts_with};
use http::Reponse;
use scenario::{nom_de, Accueil, Etat};

verus! {

/// The default port: the front's development server takes the one below.
pub const PORT: u16 = 1421;

/// What a path under this prefix names is a scenario.
pub const SCENARIO_PREFIX: &'static str = "/scenario/";

/// What a path under this prefix names is a command, by its English name.
pub const COMMAND_PREFIX: &'static str = "/command/";

/// What a path under this prefix names is a command, by its French name.
pub const COMMANDE_PREFIX: &'static str = "/commande/";

/// The commands the server answers, as the window's bridge names them.
#[derive(Debug, Clone, Copy, PartialEq, Eq, Structural)]
pub enum Command {
    Brand,
    Path,
    Status,
    SignIn,
    SignOut,
    PackState,
    Play,
    Install,
    VerifyFiles,
    News,
    Settings,
    SaveSettings,
    Screen,
    OpenFolder,
    FrontReady,
    OpenSignIn,
    SignInSucceeded,
    MainReady,
    Log,
    StopGame,
}

/// What a request's path designates.
#[derive(Debug, Clone, PartialEq, Eq)]
pub enum Route {
    /// A scenario, by name: the state it names, if any.
    Scenario { name: String, state: Option<Etat> },
    /// A known command.
    Command(Command),
    /// A name under the command prefix that no command has.
    UnknownCommand(String),
    /// Anything else: the server's own page.
    Home,
}

/// The name of a command.
pub open spec fn command_name(c: Command) -> Seq<char> {
    match c {
        Command::Brand => "brand"@,
        Command::Path => "path"@,
        Command::Status => "status"@,
        Command::SignIn => "sign_in"@,
        Command::SignOut => "sign_out"@,
        Command::PackState => "pack_state"@,
        Command::Play => "play"@,
        Command::Install => "install"@,
        Command::VerifyFiles => "verify_files"@,
        Command::News => "news"@,
        Command::Settings => "settings"@,
        Command::SaveSettings => "save_settings"@,
        Command::Screen => "screen"@,
        Command::OpenFolder => "open_folder"@,
        Command::FrontReady => "front_ready"@,
        Command::OpenSignIn => "open_sign_in"@,
        Command::SignInSucceeded => "sign_in_succeeded"@,
        Command::MainReady => "main_ready"@,
        Command::Log => "log"@,
        Command::StopGame => "stop_game"@,
    }
}

/// The commands, in the order the server lists them.
pub open spec fn all_commands() -> Seq<Command> {
    seq![
        Command::Brand,
        Command::Path,
        Command::Status,
        Command::SignIn,
        Command::SignOut,
        Command::PackState,
        Command::Play,
        Command::Install,
        Command::VerifyFiles,
        Command::News,
        Command::Settings,
        Command::SaveSettings,
        Command::Screen,
        Command::OpenFolder,
        Command::FrontReady,
        Command::OpenSignIn,
        Command::SignInSucceeded,
        Command::MainReady,
        Command::Log,
        Command::StopGame
    ]
}

/// The scenarios, in the order the server lists them.
pub open spec fn all_states() -> Seq<Etat> {
    seq![
        Etat::Deconnecte,
        Etat::SansLicence,
        Etat::RienInstalle,
        Etat::PretAJouer,
        Etat::ARattraper,
        Etat::HorsLigne,
        Etat::EnInstallation,
        Etat::ModsIntrouvables
    ]
}

/// The French name of a command, as the French bridge calls it; the
/// window's readiness signal has none.
pub open spec fn nom_francais(c: Command) -> Option<Seq<char>> {
    match c {
        Command::Brand => Some("marque"@),
        Command::Path => Some("chemin"@),
        Command::Status => Some("statut"@),
        Command::SignIn => Some("connexion"@),
        Command::SignOut => Some("deconnexion"@),
        Command::PackState => Some("etat_du_pack"@),
        Command::Play => Some("jouer"@),
        Command::Install => Some("installer"@),
        Command::VerifyFiles => Some("verifier_les_fichiers"@),
        Command::News => Some("nouvelles"@),
        Command::Settings => Some("reglages"@),
        Command::SaveSettings => Some("enregistrer_reglages"@),
        Command::Screen => Some("ecran"@),
        Command::OpenFolder => Some("ouvrir_dossier"@),
        Command::FrontReady => Some("front_pret"@),
        Command::OpenSignIn => Some("ouvrir_connexion"@),
        Command::SignInSucceeded => Some("connexion_reussie"@),
        Command::MainReady => None,
        Command::Log => Some("journal"@),
        Command::StopGame => Some("arreter_le_jeu"@),
    }
}

/// The French names the server announces, in the order of the English
/// list.
pub open spec fn noms_francais_annonces() -> Seq<Seq<char>> {
    seq![
        "marque"@,
        "chemin"@,
        "statut"@,
        "connexion"@,
        "deconnexion"@,
        "etat_du_pack"@,
        "jouer"@,
        "installer"@,
        "verifier_les_fichiers"@,
        "nouvelles"@,
        "reglages"@,
        "enregistrer_reglages"@,
        "ecran"@,
        "ouvrir_dossier"@,
        "front_pret"@,
        "ouvrir_connexion"@,
        "connexion_reussie"@,
        "journal"@,
        "arreter_le_jeu"@
    ]
}

/// What follows `prefix` in `path`.
pub open spec fn after(path: Seq<char>, prefix: Seq<char>) -> Seq<char> {
    path.skip(prefix.len() as int)
}

/// The state a command leaves the scenario in: signing in leaves an
/// account with nothing installed, signing out leaves nobody, a played or
/// installed pack is ready to play; anything else changes nothing.
pub open spec fn state_after(c: Command, state: Etat) -> Etat {
    match c {
        Command::SignIn => Etat::RienInstalle,
        Command::SignOut => Etat::Deconnecte,
        Command::Play | Command::Install => Etat::PretAJouer,
        _ => state,
    }
}

impl Command {
    /// The name of the command.
    pub fn name(self) -> (r: &'static str)
        ensures
            r@ == command_name(self),
    {
        match self {
            Command::Brand => "brand",
            Command::Path => "path",
            Command::Status => "status",
            Command::SignIn => "sign_in",
            Command::SignOut => "sign_out",
            Command::PackState => "pack_state",
            Command::Play => "play",
            Command::Install => "install",
            Command::VerifyFiles => "verify_files",
            Command::News => "news",
            Command::Settings => "settings",
            Command::SaveSettings => "save_settings",
            Command::Screen => "screen",
            Command::OpenFolder => "open_folder",
            Command::FrontReady => "front_ready",
            Command::OpenSignIn => "open_sign_in",
            Command::SignInSucceeded => "sign_in_succeeded",
            Command::MainReady => "main_ready",
            Command::Log => "log",
            Command::StopGame => "stop_game",
        }
    }
}

impl Command {
    /// The French name of the command, if it has one.
    pub fn nom(self) -> (r: Option<&'static str>)
        ensures
            match r {
                Some(n) => nom_francais(self) == Some(n@),
                None => nom_francais(self) is None,
            },
    {
        match self {
            Command::Brand => Some("marque"),
            Command::Path => Some("chemin"),
            Command::Status => Some("statut"),
            Command::SignIn => Some("connexion"),
            Command::SignOut => Some("deconnexion"),
            Command::PackState => Some("etat_du_pack"),
            Command::Play => Some("jouer"),
            Command::Install => Some("installer"),
            Command::VerifyFiles => Some("verifier_les_fichiers"),
            Command::News => Some("nouvelles"),
            Command::Settings => Some("reglages"),
            Command::SaveSettings => Some("enregistrer_reglages"),
            Command::Screen => Some("ecran"),
            Command::OpenFolder => Some("ouvrir_dossier"),
            Command::FrontReady => Some("front_pret"),
            Command::OpenSignIn => Some("ouvrir_connexion"),
            Command::SignInSucceeded => Some("connexion_reussie"),
            Command::MainReady => None,
            Command::Log => Some("journal"),
            Command::StopGame => Some("arreter_le_jeu"),
        }
    }
}

/// The commands, in the order the server lists them.
fn commands() -> (r: Vec<Command>)
    ensures
        r@ == all_commands(),
{
    let r = vec![
        Command::Brand,
        Command::Path,
        Command::Status,
        Command::SignIn,
        Command::SignOut,
        Command::PackState,
        Command::Play,
        Command::Install,
        Command::VerifyFiles,
        Command::News,
        Command::Settings,
        Command::SaveSettings,
        Command::Screen,
        Command::OpenFolder,
        Command::FrontReady,
        Command::OpenSignIn,
        Command::SignInSucceeded,
        Command::MainReady,
        Command::Log,
        Command::StopGame,
    ];
    assert(r@ =~= all_commands());
    r
}

/// Every command is in the list.
proof fn lemma_every_command_listed(c: Command)
    ensures
        all_commands().contains(c),
{
    let i: int = match c {
        Command::Brand => 0,
        Command::Path => 1,
        Command::Status => 2,
        Command::SignIn => 3,
        Command::SignOut => 4,
        Command::PackState => 5,
        Command::Play => 6,
        Command::Install => 7,
        Command::VerifyFiles => 8,
        Command::News => 9,
        Command::Settings => 10,
        Command::SaveSettings => 11,
        Command::Screen => 12,
        Command::OpenFolder => 13,
        Command::FrontReady => 14,
        Command::OpenSignIn => 15,
        Command::SignInSucceeded => 16,
        Command::MainReady => 17,
        Command::Log => 18,
        Command::StopGame => 19,
    };
    assert(all_commands()[i] == c);
}

/// The command of a name, if there is one.
pub fn command_of(name: &str) -> (r: Option<Command>)
    ensures
        match r {
            Some(c) => command_name(c) == name@,
            None => forall|c: Command| command_name(c) != name@,
        },
{
    let all = commands();
    let mut i: usize = 0;
    while i < all.len()
        invariant
            i <= all.len(),
            all@ == all_commands(),
            forall|j: int| 0 <= j < i ==> command_name(#[trigger] all@[j]) != name@,
        decreases all.len() - i,
    {
        if is_named(name, all[i].name()) {
            return Some(all[i]);
        }
        i = i + 1;
    }
    proof {
        assert forall|c: Command| command_name(c) != name@ by {
            lemma_every_command_listed(c);
            let j: int = choose|j: int| 0 <= j < all_commands().len() && all_commands()[j] == c;
            assert(command_name(all@[j]) != name@);
        }
    }
    None
}

/// The command of a French name, if there is one.
pub fn commande_de(nom: &str) -> (r: Option<Command>)
    ensures
        match r {
            Some(c) => nom_francais(c) == Some(nom@),
            None => forall|c: Command| nom_francais(c) != Some(nom@),
        },
{
    let all = commands();
    let mut i: usize = 0;
    while i < all.len()
        invariant
            i <= all.len(),
            all@ == all_commands(),
            forall|j: int| 0 <= j < i ==> nom_francais(#[trigger] all@[j]) != Some(nom@),
        decreases all.len() - i,
    {
        match all[i].nom() {
            Some(n) => {
                if is_named(nom, n) {
                    return Some(all[i]);
                }
            },
            None => {},
        }
        i = i + 1;
    }
    proof {
        assert forall|c: Command| nom_francais(c) != Some(nom@) by {
            lemma_every_command_listed(c);
            let j: int = choose|j: int| 0 <= j < all_commands().len() && all_commands()[j] == c;
            assert(nom_francais(all@[j]) != Some(nom@));
        }
    }
    None
}

/// What a request's path designates: a scenario under its prefix, a
/// command under the English prefix by its English name or under the
/// French prefix by its French name, the home page otherwise.
pub fn route(path: &str) -> (r: Route)
    ensures
        match r {
            Route::Scenario { name, state } => starts_with(path@, SCENARIO_PREFIX@) && name@ == after(
                path@,
                SCENARIO_PREFIX@,
            ) && match state {
                Some(e) => nom_de(e) == name@,
                None => forall|e: Etat| nom_de(e) != name@,
            },
            Route::Command(c) => !starts_with(path@, SCENARIO_PREFIX@) && if starts_with(
                path@,
                COMMAND_PREFIX@,
            ) {
                command_name(c) == after(path@, COMMAND_PREFIX@)
            } else {
                starts_with(path@, COMMANDE_PREFIX@) && nom_francais(c) == Some(
                    after(path@, COMMANDE_PREFIX@),
                )
            },
            Route::UnknownCommand(name) => !starts_with(path@, SCENARIO_PREFIX@) && if starts_with(
                path@,
                COMMAND_PREFIX@,
            ) {
                name@ == after(path@, COMMAND_PREFIX@) && forall|c: Command|
                    command_name(c) != name@
            } else {
                starts_with(path@, COMMANDE_PREFIX@) && name@ == after(path@, COMMANDE_PREFIX@)
                    && forall|c: Command| nom_francais(c) != Some(name@)
            },
            Route::Home => !starts_with(path@, SCENARIO_PREFIX@) && !starts_with(
                path@,
                COMMAND_PREFIX@,
            ) && !starts_with(path@, COMMANDE_PREFIX@),
        },
{
    let p = chars_of(path);
    let scenario = chars_of(SCENARIO_PREFIX);
    let command = chars_of(COMMAND_PREFIX);
    let commande = chars_of(COMMANDE_PREFIX);
    if starts(&p, &scenario) {
        let rest = slice_of(&p, scenario.len(), p.len());
        assert(rest@ =~= after(path@, SCENARIO_PREFIX@));
        let name = crate::text::string_of(&rest);
        let state = Etat::depuis_nom(name.as_str());
        return Route::Scenario { name, state };
    }
    if starts(&p, &command) {
        let rest = slice_of(&p, command.len(), p.len());
        assert(rest@ =~= after(path@, COMMAND_PREFIX@));
        let name = crate::text::string_of(&rest);
        return match command_of(name.as_str()) {
            Some(c) => Route::Command(c),
            None => Route::UnknownCommand(name),
        };
    }
    if starts(&p, &commande) {
        let rest = slice_of(&p, commande.len(), p.len());
        assert(rest@ =~= after(path@, COMMANDE_PREFIX@));
        let name = crate::text::string_of(&rest);
        return match commande_de(name.as_str()) {
            Some(c) => Route::Command(c),
            None => Route::UnknownCommand(name),
        };
    }
    Route::Home
}

/// The state a command leaves the scenario in.
pub fn next_state(c: Command, state: Etat) -> (r: Etat)
    ensures
        r == state_after(c, state),
{
    match c {
        Command::SignIn => Etat::RienInstalle,
        Command::SignOut => Etat::Deconnecte,
        Command::Play | Command::Install => Etat::PretAJouer,
        _ => state,
    }
}

/// What each command leaves the scenario in, whatever it was before:
/// playing or installing leaves the pack ready to play, signing in leaves an
/// account with nothing installed, signing out leaves nobody, and every other
/// command leaves the scenario where it was.
pub proof fn law_what_a_command_leaves_the_scenario_in(c: Command, e: Etat)
    ensures
        state_after(Command::Play, e) == Etat::PretAJouer,
        state_after(Command::Install, e) == Etat::PretAJouer,
        state_after(Command::SignIn, e) == Etat::RienInstalle,
        state_after(Command::SignOut, e) == Etat::Deconnecte,
        c != Command::Play && c != Command::Install && c != Command::SignIn && c != Command::SignOut
            ==> state_after(c, e) == e,
{
}

/// What a 404 says: what was not found, then the name asked for.
pub open spec fn unknown_message(prefix: Seq<char>, name: Seq<char>) -> Seq<char> {
    prefix + name
}

/// The answer to a scenario name that no scenario has.
pub fn unknown_scenario(name: &str) -> (r: Reponse)
    ensures
        r.code == 404,
        r.type_mime@ == http::JSON@,
        r.corps@ == http::chaine_json(unknown_message("unknown scenario: "@, name@)),
{
    let mut message = owned("unknown scenario: ");
    append(&mut message, name);
    assert(message@ =~= unknown_message("unknown scenario: "@, name@));
    Reponse::erreur(404, message.as_str())
}

/// The answer to a command name that no command has.
pub fn unknown_command(name: &str) -> (r: Reponse)
    ensures
        r.code == 404,
        r.type_mime@ == http::JSON@,
        r.corps@ == http::chaine_json(unknown_message("unknown command: "@, name@)),
{
    let mut message = owned("unknown command: ");
    append(&mut message, name);
    assert(message@ =~= unknown_message("unknown command: "@, name@));
    Reponse::erreur(404, message.as_str())
}

/// What the server says about itself: the scenario being served, all of
/// them, and every command, by its French name and then by its English
/// name.
pub fn home(state: Etat) -> (r: Accueil)
    ensures
        r.scenario@ == nom_de(state),
        r.scenarios.deep_view() == all_states().map_values(|e: Etat| nom_de(e)),
        r.commandes.deep_view() == noms_francais_annonces() + all_commands().map_values(
            |c: Command| command_name(c),
        ),
{
    let states = vec![
        Etat::Deconnecte,
        Etat::SansLicence,
        Etat::RienInstalle,
        Etat::PretAJouer,
        Etat::ARattraper,
        Etat::HorsLigne,
        Etat::EnInstallation,
        Etat::ModsIntrouvables,
    ];
    assert(states@ =~= all_states());
    let mut scenarios: Vec<String> = Vec::new();
    let mut i: usize = 0;
    while i < states.len()
        invariant
            i <= states.len(),
            states@ == all_states(),
            scenarios.deep_view() == all_states().take(i as int).map_values(|e: Etat| nom_de(e)),
        decreases states.len() - i,
    {
        let ghost before = scenarios.deep_view();
        scenarios.push(owned(states[i].nom()));
        assert(scenarios.deep_view() =~= before.push(nom_de(states@[i as int])));
        assert(all_states().take(i + 1).map_values(|e: Etat| nom_de(e)) =~= all_states().take(
            i as int,
        ).map_values(|e: Etat| nom_de(e)).push(nom_de(states@[i as int])));
        i = i + 1;
    }
    assert(all_states().take(8) =~= all_states());
    let mut names: Vec<String> = Vec::new();
    names.push(owned("marque"));
    names.push(owned("chemin"));
    names.push(owned("statut"));
    names.push(owned("connexion"));
    names.push(owned("deconnexion"));
    names.push(owned("etat_du_pack"));
    names.push(owned("jouer"));
    names.push(owned("installer"));
    names.push(owned("verifier_les_fichiers"));
    names.push(owned("nouvelles"));
    names.push(owned("reglages"));
    names.push(owned("enregistrer_reglages"));
    names.push(owned("ecran"));
    names.push(owned("ouvrir_dossier"));
    names.push(owned("front_pret"));
    names.push(owned("ouvrir_connexion"));
    names.push(owned("connexion_reussie"));
    names.push(owned("journal"));
    names.push(owned("arreter_le_jeu"));
    let ghost francais = names.deep_view();
    assert(francais =~= noms_francais_annonces());
    let all = commands();
    let mut k: usize = 0;
    while k < all.len()
        invariant
            k <= all.len(),
            all@ == all_commands(),
            names.deep_view() == francais + all_commands().take(k as int).map_values(
                |c: Command| command_name(c),
            ),
        decreases all.len() - k,
    {
        let ghost before = names.deep_view();
        names.push(owned(all[k].name()));
        assert(names.deep_view() =~= before.push(command_name(all@[k as int])));
        assert(all_commands().take(k + 1).map_values(|c: Command| command_name(c))
            =~= all_commands().take(k as int).map_values(|c: Command| command_name(c)).push(
            command_name(all@[k as int]),
        ));
        assert(names.deep_view() =~= francais + all_commands().take(k + 1).map_values(
            |c: Command| command_name(c),
        ));
        k = k + 1;
    }
    assert(all_commands().take(20) =~= all_commands());
    Accueil { scenario: owned(state.nom()), scenarios, commandes: names }
}

/// One step of a simulated installation, as it is sent to the window.
#[derive(Debug, Clone, PartialEq, Eq)]
pub struct SimulatedStep {
    pub phase: Phase,
    pub note: String,
    pub bytes: u64,
    pub total: u64,
    pub files: usize,
    pub files_total: usize,
    pub remaining: u64,
}

/// The weight of the simulated installation.
pub const SIMULATED_TOTAL: u64 = 840_000_000;

/// The number of steps a simulated installation goes through.
pub const SIMULATED_STEPS: usize = 7;

/// The phase and note of each simulated step.
pub open spec fn simulated_phase(index: int) -> (Phase, Seq<char>) {
    if index == 0 {
        (Phase::Pack, "Reading the manifest"@)
    } else if index == 1 {
        (Phase::Loader, "NeoForge 21.1.250"@)
    } else if index == 2 {
        (Phase::Minecraft, "Client, libraries and assets"@)
    } else if index == 3 {
        (Phase::Java, "Temurin 21"@)
    } else if index == 4 {
        (Phase::NeoForge, "Official installer"@)
    } else if index == 5 {
        (Phase::Mods, "128 mods"@)
    } else {
        (Phase::Lock, "Lock written"@)
    }
}

/// A simulated step: the bytes climb by sevenths of the total, the files
/// by eighteen, and the time left shrinks by nine seconds a step.
pub fn simulated_step(index: usize) -> (r: SimulatedStep)
    requires
        index < SIMULATED_STEPS,
    ensures
        (r.phase, r.note@) == simulated_phase(index as int),
        r.bytes == SIMULATED_TOTAL * (index + 1) / 7,
        r.total == SIMULATED_TOTAL,
        r.files == (index + 1) * 18,
        r.files_total == 128,
        r.remaining == (SIMULATED_STEPS - index - 1) * 9,
{
    let (phase, note) = if index == 0 {
        (Phase::Pack, "Reading the manifest")
    } else if index == 1 {
        (Phase::Loader, "NeoForge 21.1.250")
    } else if index == 2 {
        (Phase::Minecraft, "Client, libraries and assets")
    } else if index == 3 {
        (Phase::Java, "Temurin 21")
    } else if index == 4 {
        (Phase::NeoForge, "Official installer")
    } else if index == 5 {
        (Phase::Mods, "128 mods")
    } else {
        (Phase::Lock, "Lock written")
    };
    let step: u64 = index as u64 + 1;
    SimulatedStep {
        phase,
        note: owned(note),
        bytes: SIMULATED_TOTAL * step / 7,
        total: SIMULATED_TOTAL,
        files: (index + 1) * 18,
        files_total: 128,
        remaining: ((SIMULATED_STEPS - index - 1) * 9) as u64,
    }
}

/// The bytes of a simulated installation climb step by step and reach the
/// total at the last one.
pub proof fn law_the_simulated_bar_fills(i: int, j: int)
    requires
        0 <= i <= j < 7,
    ensures
        SIMULATED_TOTAL * (i + 1) / 7 <= SIMULATED_TOTAL * (j + 1) / 7,
        SIMULATED_TOTAL * 7 / 7 == SIMULATED_TOTAL,
{
    assert(SIMULATED_TOTAL * (i + 1) <= SIMULATED_TOTAL * (j + 1)) by (nonlinear_arith)
        requires
            0 <= i <= j,
    ;
    assert(SIMULATED_TOTAL * (i + 1) / 7 <= SIMULATED_TOTAL * (j + 1) / 7) by (nonlinear_arith)
        requires
            SIMULATED_TOTAL * (i + 1) <= SIMULATED_TOTAL * (j + 1),
    ;
}

/// What `serde_json` reads of a JSON text's member `name`, when the text
/// is an object and the member a string.
pub uninterp spec fn json_string_member(body: Seq<char>, name: Seq<char>) -> Option<Seq<char>>;

/// Reads a string member of a JSON object: `serde_json::from_str` into a
/// value, then its member, then its text. The result is named by
/// `json_string_member`, not computed here; nothing more is stated of it.
#[verifier::external_body]
fn string_member(body: &str, name: &str) -> (r: Option<String>)
    ensures
        match r {
            Some(t) => json_string_member(body@, name@) == Some(t@),
            None => json_string_member(body@, name@) is None,
        },
{
    serde_json::from_str::<serde_json::Value>(body).ok()?.get(name)?.as_str().map(str::to_owned)
}

/// A named argument in the JSON body, when it is a string; nothing when
/// the body does not read, the argument is missing or of another type.
pub fn text(body: &str, name: &str) -> (r: Option<String>)
    ensures
        match r {
            Some(t) => json_string_member(body@, name@) == Some(t@),
            None => json_string_member(body@, name@) is None,
        },
{
    string_member(body, name)
}

/// What a front-end log line asks for: its level, `info` by default, and
/// its message, empty by default. A malformed line does not interrupt the
/// gesture being observed.
pub fn log_request(body: &str) -> (r: (String, String))
    ensures
        r.0@ == match json_string_member(body@, "level"@) {
            Some(l) => l,
            None => "info"@,
        },
        r.1@ == match json_string_member(body@, "message"@) {
            Some(m) => m,
            None => Seq::<char>::empty(),
        },
{
    let level = match text(body, "level") {
        Some(l) => l,
        None => owned("info"),
    };
    let message = match text(body, "message") {
        Some(m) => m,
        None => String::new(),
    };
    (level, message)
}

/// The port the server listens on: the configured one when it reads as a
/// port number, the default otherwise.
pub fn port_from(configured: Option<&str>) -> (r: u16)
    ensures
        r == match configured {
            Some(v) => match http::entier_lu(v@) {
                Some(n) => if n <= u16::MAX {
                    n as u16
                } else {
                    PORT
                },
                None => PORT,
            },
            None => PORT,
        },
{
    match configured {
        Some(v) => match http::lire_entier(v) {
            Some(n) => if n <= 65535 {
                n as u16
            } else {
                PORT
            },
            None => PORT,
        },
        None => PORT,
    }
}

/// The scenario the server starts in: the one named, if it is one, and
/// nobody signed in otherwise.
pub fn starting_state(named: Option<&str>) -> (r: Etat)
    ensures
        match named {
            Some(n) => if exists|e: Etat| nom_de(e) == n@ {
                nom_de(r) == n@
            } else {
                r == Etat::Deconnecte
            },
            None => r == Etat::Deconnecte,
        },
{
    match named {
        Some(n) => match Etat::depuis_nom(n) {
            Some(e) => e,
            None => Etat::Deconnecte,
        },
        None => Etat::Deconnecte,
    }
}

/// What `serde_json` gives of a JSON object's member `name`, written back as
/// compact JSON text, when the body is an object that has it.
pub uninterp spec fn json_member_text(body: Seq<char>, name: Seq<char>) -> Option<Seq<char>>;

/// Reads a member of a JSON object as JSON text: `serde_json::from_str`
/// into a value, its member, and that member's `Display`. The result is
/// named by `json_member_text`, not computed here; nothing more is stated.
#[verifier::external_body]
fn member_text(body: &str, name: &str) -> (r: Option<String>)
    ensures
        match r {
            Some(t) => json_member_text(body@, name@) == Some(t@),
            None => json_member_text(body@, name@) is None,
        },
{
    serde_json::from_str::<serde_json::Value>(body).ok()?.get(name).map(|v| v.to_string())
}

/// A named argument in the JSON body, as JSON text, the way the bridge
/// sends it: an object whose keys are the parameter names. Nothing when the
/// body does not read or the argument is missing.
pub fn argument(body: &str, name: &str) -> (r: Option<String>)
    ensures
        match r {
            Some(t) => json_member_text(body@, name@) == Some(t@),
            None => json_member_text(body@, name@) is None,
        },
{
    member_text(body, name)
}

/// What the server answers a command with, once the scenario is known:
/// either a reply already decided, or what the application must produce.
#[derive(Debug, Clone, PartialEq, Eq)]
pub enum Answer {
    /// The reply, as it stands.
    Ready(Reponse),
    /// The brand, from the real implementation.
    Brand,
    /// The path, from the real implementation.
    Path,
    /// The settings in effect, from the real implementation.
    Settings,
    /// Saving the settings carried by this JSON text.
    SaveSettings(String),
    /// The scenario's account.
    Account(Etat),
    /// The scenario's pack state.
    Pack(Etat),
    /// The scenario's news feed.
    Feed(Etat),
    /// A simulated sign-in: the device code, a wait, then the account.
    SignIn,
    /// A simulated installation, followed by a session when `played`.
    Simulate { played: bool },
    /// A front-end log line.
    Log { level: String, message: String },
    /// The sign-in screen's floor, held before answering.
    SignInSucceeded,
}

/// What is said when saving is asked without settings.
pub const MISSING_SETTINGS: &'static str = "missing the \"settings\" argument";

/// The reply that carries nothing: a JSON `null`.
pub open spec fn is_empty_reply(r: Reponse) -> bool {
    r.code == 200 && r.type_mime@ == http::JSON@ && r.corps@ == "null"@
}

/// A successful JSON reply with this body.
pub open spec fn is_json_reply(r: Reponse, body: Seq<char>) -> bool {
    r.code == 200 && r.type_mime@ == http::JSON@ && r.corps@ == body
}

/// What a command is answered with, in a scenario, for a request body.
pub open spec fn answers(c: Command, state: Etat, body: Seq<char>, a: Answer) -> bool {
    match c {
        Command::Brand => a == Answer::Brand,
        Command::Path => a == Answer::Path,
        Command::Settings => a == Answer::Settings,
        Command::SaveSettings => match json_member_text(body, "settings"@) {
            Some(t) => a matches Answer::SaveSettings(x) && x@ == t,
            None => a matches Answer::Ready(r) && r.code == 500 && r.type_mime@ == http::JSON@
                && r.corps@ == http::chaine_json(MISSING_SETTINGS@),
        },
        Command::Status => a == Answer::Account(state),
        Command::PackState => a == Answer::Pack(state),
        Command::News => a == Answer::Feed(state),
        Command::VerifyFiles => a matches Answer::Ready(r) && is_json_reply(r, "[]"@),
        Command::SignIn => a == Answer::SignIn,
        Command::Play => a == Answer::Simulate { played: true },
        Command::Install => a == Answer::Simulate { played: false },
        Command::Screen => a matches Answer::Ready(r) && is_empty_reply(r),
        Command::SignOut | Command::OpenFolder | Command::FrontReady | Command::OpenSignIn
        | Command::MainReady | Command::StopGame => a matches Answer::Ready(r) && is_empty_reply(r),
        Command::Log => a matches Answer::Log { level, message } && level@ == match json_string_member(
            body,
            "level"@,
        ) {
            Some(l) => l,
            None => "info"@,
        } && message@ == match json_string_member(body, "message"@) {
            Some(m) => m,
            None => Seq::<char>::empty(),
        },
        Command::SignInSucceeded => a == Answer::SignInSucceeded,
    }
}

/// What a command is answered with: the replies that depend on nothing
/// but the scenario and the request are decided here; the rest names what
/// the application produces.
pub fn answer(c: Command, state: Etat, body: &str) -> (r: Answer)
    ensures
        answers(c, state, body@, r),
{
    match c {
        Command::Brand => Answer::Brand,
        Command::Path => Answer::Path,
        Command::Settings => Answer::Settings,
        Command::SaveSettings => match argument(body, "settings") {
            Some(t) => Answer::SaveSettings(t),
            None => Answer::Ready(Reponse::erreur(500, MISSING_SETTINGS)),
        },
        Command::Status => Answer::Account(state),
        Command::PackState => Answer::Pack(state),
        Command::News => Answer::Feed(state),
        Command::VerifyFiles => Answer::Ready(Reponse::json(owned("[]"))),
        Command::SignIn => Answer::SignIn,
        Command::Play => Answer::Simulate { played: true },
        Command::Install => Answer::Simulate { played: false },
        Command::Log => {
            let (level, message) = log_request(body);
            Answer::Log { level, message }
        },
        Command::SignInSucceeded => Answer::SignInSucceeded,
        _ => Answer::Ready(Reponse::vide()),
    }
}

/// What precedes the reason a value did not serialize.
pub const UNSERIALIZABLE_RESPONSE: &'static str = "unserializable response: ";

/// What precedes the reason an error did not serialize.
pub const UNSERIALIZABLE_ERROR: &'static str = "unserializable error: ";

/// A 500 in JSON whose body is this text.
pub open spec fn is_failure_reply(r: Reponse, body: Seq<char>) -> bool {
    r.code == 500 && r.type_mime@ == http::JSON@ && r.corps@ == body
}

/// The reply to a value once serialized: the value's JSON text, or the
/// failure rendered rather than hidden.
pub fn value_reply(serialized: Result<String, String>) -> (r: Reponse)
    ensures
        match serialized {
            Ok(t) => is_json_reply(r, t@),
            Err(e) => is_failure_reply(r, http::chaine_json(UNSERIALIZABLE_RESPONSE@ + e@)),
        },
{
    match serialized {
        Ok(t) => Reponse::json(t),
        Err(e) => {
            let mut message = owned(UNSERIALIZABLE_RESPONSE);
            append(&mut message, e.as_str());
            Reponse::erreur(500, message.as_str())
        },
    }
}

/// The reply to a command's `Result`, the way the window's bridge unpacks
/// it: a success leaves as the bare value, never wrapped in `Ok`, and an
/// error is the error value itself, serialized, with a 500. Each side comes
/// as its serialized text, or the reason it did not serialize.
pub fn result_reply(outcome: Result<Result<String, String>, Result<String, String>>) -> (r: Reponse)
    ensures
        match outcome {
            Ok(Ok(t)) => is_json_reply(r, t@),
            Ok(Err(e)) => is_failure_reply(r, http::chaine_json(UNSERIALIZABLE_RESPONSE@ + e@)),
            Err(Ok(t)) => is_failure_reply(r, t@),
            Err(Err(e)) => is_failure_reply(r, http::chaine_json(UNSERIALIZABLE_ERROR@ + e@)),
        },
{
    match outcome {
        Ok(value) => value_reply(value),
        Err(Ok(body)) => Reponse { code: 500, type_mime: owned(http::JSON), corps: body },
        Err(Err(e)) => {
            let mut message = owned(UNSERIALIZABLE_ERROR);
            append(&mut message, e.as_str());
            Reponse::erreur(500, message.as_str())
        },
    }
}

} // verus!
