//! The full path, as the window shows it: from signing in to the game
//! launched.
//!
//! The installation's own steps ([`Step`]) sit in the middle of it, framed by
//! what the installer does not do: signing in and the license check before,
//! the ready state and the launch after. The path is shown whole from the
//! start, each phase carrying its state.

use vstd::prelude::*;

verus! {

/// A phase of the path, from the window opening to the game launched.
#[derive(Debug, Clone, Copy, PartialEq, Eq, Hash, Structural)]
pub enum Phase {
    /// Microsoft session: resumed, or opened by device code.
    SignIn,
    /// Does the account own Minecraft Java Edition?
    License,
    /// Reading the pack manifest, and the lock.
    Pack,
    /// Which version of NeoForge.
    Loader,
    /// Mojang's files: client, libraries, assets.
    Minecraft,
    /// The Java runtime, detected or installed.
    Java,
    /// The NeoForge installer.
    NeoForge,
    /// Resolving, downloading and laying out the mods.
    Mods,
    /// The lock, written last.
    Lock,
    /// Everything is in place: the "Play" button lights up.
    Ready,
    /// The game is running.
    Launch,
}

/// An installation step, as the installer reports it.
#[derive(Debug, Clone, Copy, PartialEq, Eq, Hash, Structural)]
pub enum Step {
    Pack,
    Loader,
    Minecraft,
    Java,
    NeoForge,
    Mods,
    Lock,
}

/// The rank of a phase on the path, from zero.
pub open spec fn rank_of(p: Phase) -> nat {
    match p {
        Phase::SignIn => 0,
        Phase::License => 1,
        Phase::Pack => 2,
        Phase::Loader => 3,
        Phase::Minecraft => 4,
        Phase::Java => 5,
        Phase::NeoForge => 6,
        Phase::Mods => 7,
        Phase::Lock => 8,
        Phase::Ready => 9,
        Phase::Launch => 10,
    }
}

/// What the window writes next to a phase.
pub open spec fn label_of(p: Phase) -> Seq<char> {
    match p {
        Phase::SignIn => "Microsoft account"@,
        Phase::License => "Minecraft license"@,
        Phase::Pack => "Reading the pack"@,
        Phase::Loader => "Loader version"@,
        Phase::Minecraft => "Game files"@,
        Phase::Java => "Java"@,
        Phase::NeoForge => "Installing NeoForge"@,
        Phase::Mods => "Mods"@,
        Phase::Lock => "Finalizing"@,
        Phase::Ready => "Ready to play"@,
        Phase::Launch => "Game launched"@,
    }
}

/// Where an installation step sits on the path.
pub open spec fn phase_of_step(s: Step) -> Phase {
    match s {
        Step::Pack => Phase::Pack,
        Step::Loader => Phase::Loader,
        Step::Minecraft => Phase::Minecraft,
        Step::Java => Phase::Java,
        Step::NeoForge => Phase::NeoForge,
        Step::Mods => Phase::Mods,
        Step::Lock => Phase::Lock,
    }
}

/// The rank of an installation step among the installer's own, from zero.
pub open spec fn step_rank(s: Step) -> nat {
    match s {
        Step::Pack => 0,
        Step::Loader => 1,
        Step::Minecraft => 2,
        Step::Java => 3,
        Step::NeoForge => 4,
        Step::Mods => 5,
        Step::Lock => 6,
    }
}

impl Phase {
    /// All the phases, in the order they occur.
    pub const ALL: [Phase; 11] = [
        Phase::SignIn,
        Phase::License,
        Phase::Pack,
        Phase::Loader,
        Phase::Minecraft,
        Phase::Java,
        Phase::NeoForge,
        Phase::Mods,
        Phase::Lock,
        Phase::Ready,
        Phase::Launch,
    ];

    /// What the window writes next to the phase.
    ///
    /// Written for reading: unlike the serialized identifier, this text can
    /// change without breaking anything. It is never empty.
    pub fn label(self) -> (r: &'static str)
        ensures
            r@ == label_of(self),
            r@.len() > 0,
    {
        match self {
            Phase::SignIn => {
                proof { reveal_strlit("Microsoft account"); }
                "Microsoft account"
            },
            Phase::License => {
                proof { reveal_strlit("Minecraft license"); }
                "Minecraft license"
            },
            Phase::Pack => {
                proof { reveal_strlit("Reading the pack"); }
                "Reading the pack"
            },
            Phase::Loader => {
                proof { reveal_strlit("Loader version"); }
                "Loader version"
            },
            Phase::Minecraft => {
                proof { reveal_strlit("Game files"); }
                "Game files"
            },
            Phase::Java => {
                proof { reveal_strlit("Java"); }
                "Java"
            },
            Phase::NeoForge => {
                proof { reveal_strlit("Installing NeoForge"); }
                "Installing NeoForge"
            },
            Phase::Mods => {
                proof { reveal_strlit("Mods"); }
                "Mods"
            },
            Phase::Lock => {
                proof { reveal_strlit("Finalizing"); }
                "Finalizing"
            },
            Phase::Ready => {
                proof { reveal_strlit("Ready to play"); }
                "Ready to play"
            },
            Phase::Launch => {
                proof { reveal_strlit("Game launched"); }
                "Game launched"
            },
        }
    }

    /// The rank of the phase, starting from zero: its place in [`Phase::ALL`].
    pub fn rank(self) -> (r: usize)
        ensures
            r == rank_of(self),
            r < 11,
            Self::ALL@[r as int] == self,
    {
        let all = Self::ALL;
        let mut i: usize = 0;
        while i < 11
            invariant
                i <= 11,
                all@ == Self::ALL@,
                forall|j: int| 0 <= j < i ==> all@[j] != self,
            decreases 11 - i,
        {
            if all[i] == self {
                proof {
                    lemma_all_ranks();
                }
                return i;
            }
            i = i + 1;
        }
        proof {
            lemma_all_ranks();
            assert(all@[rank_of(self) as int] == self);
        }
        0
    }

    /// Where an installation step sits on the path.
    pub fn from_step(step: Step) -> (r: Phase)
        ensures
            r == phase_of_step(step),
    {
        match step {
            Step::Pack => Phase::Pack,
            Step::Loader => Phase::Loader,
            Step::Minecraft => Phase::Minecraft,
            Step::Java => Phase::Java,
            Step::NeoForge => Phase::NeoForge,
            Step::Mods => Phase::Mods,
            Step::Lock => Phase::Lock,
        }
    }
}

impl Step {
    /// The installer's steps, in the order it runs them.
    pub const ALL: [Step; 7] = [
        Step::Pack,
        Step::Loader,
        Step::Minecraft,
        Step::Java,
        Step::NeoForge,
        Step::Mods,
        Step::Lock,
    ];
}

/// The phase at each rank is the phase of that rank: [`Phase::ALL`] lists
/// every phase once, in path order.
pub proof fn lemma_all_ranks()
    ensures
        Phase::ALL@.len() == 11,
        forall|i: int| 0 <= i < 11 ==> rank_of(#[trigger] Phase::ALL@[i]) == i,
        forall|p: Phase| #[trigger] Phase::ALL@[rank_of(p) as int] == p,
{
    assert(Phase::ALL@[0] == Phase::SignIn);
}

/// The installation keeps its order once placed on the path: its seven
/// steps take seven consecutive ranks, in the installer's order, so the
/// window advances one notch per step and never goes back.
pub proof fn law_steps_keep_their_order(s: Step)
    ensures
        rank_of(phase_of_step(s)) == rank_of(Phase::Pack) + step_rank(s),
{
}

/// Signing in and the license come before the installation, the ready
/// state and the launch after it.
pub proof fn law_installation_is_framed(s: Step)
    ensures
        rank_of(Phase::SignIn) < rank_of(phase_of_step(s)),
        rank_of(Phase::License) < rank_of(phase_of_step(s)),
        rank_of(phase_of_step(s)) < rank_of(Phase::Ready),
        rank_of(Phase::Ready) < rank_of(Phase::Launch),
{
}

} // verus!
