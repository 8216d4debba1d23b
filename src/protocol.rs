//! The round protocol: the participants, the events each one is handed, the
//! actions each one asks for, and the state machine of each role.
//!
//! A process runs its machine by handing it `Event::Started`, then, after
//! each action, the event that performing the action produced.
use crate::predicate::accepts;
use crate::predicate::is_good_strings;
use vstd::prelude::*;

verus! {

/// The number of processes that the protocol runs on.
pub const PARTICIPANTS: i32 = 3;

/// One of the three fixed roles, identified by a stable ordinal.
#[derive(Clone, Copy, Debug, PartialEq, Eq, Structural)]
pub enum Participant {
    Coordinator,
    GeneratorA,
    GeneratorB,
}

impl Participant {
    pub open spec fn spec_ordinal(self) -> int {
        match self {
            Participant::Coordinator => 0,
            Participant::GeneratorA => 1,
            Participant::GeneratorB => 2,
        }
    }

    /// The process rank that this participant runs as.
    pub fn ordinal(self) -> (r: i32)
        ensures
            r == self.spec_ordinal(),
    {
        match self {
            Participant::Coordinator => 0,
            Participant::GeneratorA => 1,
            Participant::GeneratorB => 2,
        }
    }
}

/// What a process does for the whole run, chosen once at startup.
#[derive(Clone, Copy, Debug, PartialEq, Eq, Structural)]
pub enum Role {
    Coordinator,
    Generator { participant: Participant, length: usize },
}

/// Why a process cannot take part in the protocol.
#[derive(Clone, Copy, Debug, PartialEq, Eq, Structural)]
pub enum ConfigError {
    /// The run does not have exactly three processes.
    WrongProcessCount { size: i32 },
    /// A candidate length is negative or does not fit in memory sizes.
    InvalidLength { length: i64 },
    /// The process rank names no participant.
    UnknownRank { rank: i32 },
}

pub open spec fn valid_length(length: i64) -> bool {
    0 <= length <= usize::MAX
}

/// The role of process `rank` in a run of `size` processes, where the first
/// generator draws candidates of `length_one` bytes and the second of
/// `length_two` bytes. The process count is checked first, then both
/// lengths, then the rank.
pub open spec fn spec_select_role(rank: i32, size: i32, length_one: i64, length_two: i64) -> Result<
    Role,
    ConfigError,
> {
    if size != PARTICIPANTS {
        Err(ConfigError::WrongProcessCount { size })
    } else if !valid_length(length_one) {
        Err(ConfigError::InvalidLength { length: length_one })
    } else if !valid_length(length_two) {
        Err(ConfigError::InvalidLength { length: length_two })
    } else if rank == 0 {
        Ok(Role::Coordinator)
    } else if rank == 1 {
        Ok(Role::Generator { participant: Participant::GeneratorA, length: length_one as usize })
    } else if rank == 2 {
        Ok(Role::Generator { participant: Participant::GeneratorB, length: length_two as usize })
    } else {
        Err(ConfigError::UnknownRank { rank })
    }
}

pub fn select_role(rank: i32, size: i32, length_one: i64, length_two: i64) -> (r: Result<
    Role,
    ConfigError,
>)
    ensures
        r == spec_select_role(rank, size, length_one, length_two),
{
    if size != PARTICIPANTS {
        return Err(ConfigError::WrongProcessCount { size });
    }
    if length_one < 0 || length_one as u64 > usize::MAX as u64 {
        return Err(ConfigError::InvalidLength { length: length_one });
    }
    if length_two < 0 || length_two as u64 > usize::MAX as u64 {
        return Err(ConfigError::InvalidLength { length: length_two });
    }
    if rank == 0 {
        Ok(Role::Coordinator)
    } else if rank == 1 {
        Ok(Role::Generator { participant: Participant::GeneratorA, length: length_one as usize })
    } else if rank == 2 {
        Ok(Role::Generator { participant: Participant::GeneratorB, length: length_two as usize })
    } else {
        Err(ConfigError::UnknownRank { rank })
    }
}

/// What performing the last action produced, handed to a state machine.
#[derive(Clone, Debug, PartialEq, Eq)]
pub enum Event {
    /// The process has just begun; no action was performed yet.
    Started,
    /// The random supply drew this candidate.
    Sampled(Vec<u8>),
    /// A send, or both sends of a broadcast, completed.
    Sent,
    /// A candidate arrived from the generator that was named.
    Candidate(Vec<u8>),
    /// The coordinator's verdict arrived: `true` to repeat, `false` to stop.
    Verdict(bool),
}

/// What a state machine asks its process to do next.
#[derive(Clone, Debug, PartialEq, Eq)]
pub enum Action {
    /// Block until the named generator's candidate for this round arrives.
    ReceiveCandidate { from: Participant },
    /// Send the verdict to both generators, the first one first.
    BroadcastVerdict { repeat: bool },
    /// Surface the accepted pair; the coordinator has finished.
    Report { first: Vec<u8>, second: Vec<u8> },
    /// Draw a candidate of this many bytes from the random supply.
    Sample { length: usize },
    /// Send this candidate to the coordinator.
    SendCandidate { candidate: Vec<u8> },
    /// Block until the coordinator's verdict for this round arrives.
    AwaitVerdict,
    /// The protocol ended normally; do nothing more.
    Stop,
    /// An event came that the protocol does not allow here; give up.
    Abort,
}

/// The phases of a generator's round.
#[derive(Clone, Copy, Debug, PartialEq, Eq, Structural)]
pub enum GeneratorPhase {
    Generating,
    Sending,
    AwaitingVerdict,
    Terminated,
    Broken,
}

/// A generator's state machine: its candidate length and its phase.
#[derive(Clone, Copy, Debug, PartialEq, Eq, Structural)]
pub struct Generator {
    pub length: usize,
    pub phase: GeneratorPhase,
}

/// The next phase of a generator and the action it asks for.
pub open spec fn generator_next(length: usize, phase: GeneratorPhase, event: Event) -> (
    GeneratorPhase,
    Action,
) {
    match (phase, event) {
        (GeneratorPhase::Generating, Event::Started) => (
            GeneratorPhase::Generating,
            Action::Sample { length },
        ),
        (GeneratorPhase::Generating, Event::Sampled(c)) => (
            GeneratorPhase::Sending,
            Action::SendCandidate { candidate: c },
        ),
        (GeneratorPhase::Sending, Event::Sent) => (
            GeneratorPhase::AwaitingVerdict,
            Action::AwaitVerdict,
        ),
        (GeneratorPhase::AwaitingVerdict, Event::Verdict(repeat)) => if repeat {
            (GeneratorPhase::Generating, Action::Sample { length })
        } else {
            (GeneratorPhase::Terminated, Action::Stop)
        },
        (GeneratorPhase::Terminated, _) => (GeneratorPhase::Terminated, Action::Stop),
        (_, _) => (GeneratorPhase::Broken, Action::Abort),
    }
}

/// Two generators that wait for the same verdict take the same way: both
/// draw a new candidate when it says to repeat, and both stop when it says
/// to stop, whatever their candidate lengths.
pub proof fn lemma_generators_follow_verdict(length_one: usize, length_two: usize, repeat: bool)
    ensures
        generator_next(length_one, GeneratorPhase::AwaitingVerdict, Event::Verdict(repeat)).0
            == generator_next(length_two, GeneratorPhase::AwaitingVerdict, Event::Verdict(repeat)).0,
        generator_next(length_one, GeneratorPhase::AwaitingVerdict, Event::Verdict(repeat)).1 is Sample
            <==> repeat,
        generator_next(length_two, GeneratorPhase::AwaitingVerdict, Event::Verdict(repeat)).1 is Sample
            <==> repeat,
{
}

impl Generator {
    /// A generator about to draw its first candidate of `length` bytes.
    pub fn new(length: usize) -> (r: Generator)
        ensures
            r.length == length,
            r.phase == GeneratorPhase::Generating,
    {
        Generator { length, phase: GeneratorPhase::Generating }
    }

    /// Takes the event that the last action produced and returns the next
    /// action. A verdict to repeat starts a fresh round; one to stop ends it.
    pub fn step(&mut self, event: Event) -> (r: Action)
        ensures
            final(self).length == old(self).length,
            (final(self).phase, r) == generator_next(old(self).length, old(self).phase, event),
    {
        let length = self.length;
        let (phase, action) = match (self.phase, event) {
            (GeneratorPhase::Generating, Event::Started) => (
                GeneratorPhase::Generating,
                Action::Sample { length },
            ),
            (GeneratorPhase::Generating, Event::Sampled(c)) => (
                GeneratorPhase::Sending,
                Action::SendCandidate { candidate: c },
            ),
            (GeneratorPhase::Sending, Event::Sent) => (
                GeneratorPhase::AwaitingVerdict,
                Action::AwaitVerdict,
            ),
            (GeneratorPhase::AwaitingVerdict, Event::Verdict(repeat)) => if repeat {
                (GeneratorPhase::Generating, Action::Sample { length })
            } else {
                (GeneratorPhase::Terminated, Action::Stop)
            },
            (GeneratorPhase::Terminated, _) => (GeneratorPhase::Terminated, Action::Stop),
            (_, _) => (GeneratorPhase::Broken, Action::Abort),
        };
        self.phase = phase;
        action
    }
}

/// The coordinator's state machine. The candidates it holds are those of
/// the current round only.
#[derive(Clone, Debug, PartialEq, Eq)]
pub enum Coordinator {
    AwaitingFirst,
    AwaitingSecond { first: Vec<u8> },
    Broadcasting { first: Vec<u8>, second: Vec<u8>, repeat: bool },
    Terminated,
    Broken,
}

/// The next state of the coordinator and the action it asks for. The
/// verdict is to repeat exactly when the pair is not accepted.
pub open spec fn coordinator_next(state: Coordinator, event: Event) -> (Coordinator, Action) {
    match (state, event) {
        (Coordinator::AwaitingFirst, Event::Started) => (
            Coordinator::AwaitingFirst,
            Action::ReceiveCandidate { from: Participant::GeneratorA },
        ),
        (Coordinator::AwaitingFirst, Event::Candidate(c)) => (
            Coordinator::AwaitingSecond { first: c },
            Action::ReceiveCandidate { from: Participant::GeneratorB },
        ),
        (Coordinator::AwaitingSecond { first }, Event::Candidate(c)) => {
            let repeat = !accepts(first@, c@);
            (
                Coordinator::Broadcasting { first, second: c, repeat },
                Action::BroadcastVerdict { repeat },
            )
        },
        (Coordinator::Broadcasting { first, second, repeat }, Event::Sent) => if repeat {
            (Coordinator::AwaitingFirst, Action::ReceiveCandidate { from: Participant::GeneratorA })
        } else {
            (Coordinator::Terminated, Action::Report { first, second })
        },
        (Coordinator::Terminated, _) => (Coordinator::Terminated, Action::Stop),
        (_, _) => (Coordinator::Broken, Action::Abort),
    }
}

impl Coordinator {
    /// A coordinator waiting for the first round's candidates.
    pub fn new() -> (r: Coordinator)
        ensures
            r == Coordinator::AwaitingFirst,
    {
        Coordinator::AwaitingFirst
    }

    /// Takes the event that the last action produced and returns the next
    /// state with the action it asks for. Once both candidates of a round are
    /// in, it judges them; after the verdict has gone out it either starts the
    /// next round or reports the accepted pair.
    pub fn step(self, event: Event) -> (r: (Coordinator, Action))
        ensures
            r == coordinator_next(self, event),
    {
        match (self, event) {
            (Coordinator::AwaitingFirst, Event::Started) => (
                Coordinator::AwaitingFirst,
                Action::ReceiveCandidate { from: Participant::GeneratorA },
            ),
            (Coordinator::AwaitingFirst, Event::Candidate(c)) => (
                Coordinator::AwaitingSecond { first: c },
                Action::ReceiveCandidate { from: Participant::GeneratorB },
            ),
            (Coordinator::AwaitingSecond { first }, Event::Candidate(c)) => {
                let repeat = !is_good_strings(&first, &c);
                (
                    Coordinator::Broadcasting { first, second: c, repeat },
                    Action::BroadcastVerdict { repeat },
                )
            },
            (Coordinator::Broadcasting { first, second, repeat }, Event::Sent) => if repeat {
                (
                    Coordinator::AwaitingFirst,
                    Action::ReceiveCandidate { from: Participant::GeneratorA },
                )
            } else {
                (Coordinator::Terminated, Action::Report { first, second })
            },
            (Coordinator::Terminated, _) => (Coordinator::Terminated, Action::Stop),
            (_, _) => (Coordinator::Broken, Action::Abort),
        }
    }
}

} // verus!
