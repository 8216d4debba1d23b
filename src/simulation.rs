//! Rounds of the protocol played in one process, with a fixed supply of
//! candidates standing in for each generator's random draws and direct
//! hand-over standing in for the transport.
use crate::predicate::accepts;
use crate::protocol::Action;
use crate::protocol::Coordinator;
use crate::protocol::Event;
use crate::protocol::Generator;
use crate::protocol::GeneratorPhase;
use vstd::prelude::*;

verus! {

/// What each participant saw over a run: the verdicts that the coordinator
/// sent, whether each generator went on after each of them, and the pair
/// that was reported, if one was accepted.
#[derive(Clone, Debug, PartialEq, Eq)]
pub struct Trace {
    pub coordinator: Vec<bool>,
    pub first_generator: Vec<bool>,
    pub second_generator: Vec<bool>,
    pub accepted: Option<(Vec<u8>, Vec<u8>)>,
}

pub open spec fn rounds_available(supply_one: Seq<Vec<u8>>, supply_two: Seq<Vec<u8>>) -> int {
    if supply_one.len() <= supply_two.len() {
        supply_one.len() as int
    } else {
        supply_two.len() as int
    }
}

/// The verdict that round `j` owes: repeat unless the round's pair is accepted.
pub open spec fn round_verdict(supply_one: Seq<Vec<u8>>, supply_two: Seq<Vec<u8>>, j: int) -> bool {
    !accepts(supply_one[j]@, supply_two[j]@)
}

fn copy_bytes(v: &Vec<u8>) -> (r: Vec<u8>)
    ensures
        r@ == v@,
{
    let r = v.clone();
    assert(r@ =~= v@);
    r
}

/// `true` when a generator's action after a verdict is to draw a new
/// candidate, that is when it plays one more round.
fn went_on(action: &Action) -> (r: bool)
    ensures
        r == (*action is Sample),
{
    match action {
        Action::Sample { .. } => true,
        _ => false,
    }
}

/// Plays rounds in which the first generator draws `supply_one[j]` and the
/// second `supply_two[j]` in round `j`, until a pair is accepted or a supply
/// runs out. Every round's verdict is the one the predicate owes, all rounds
/// but the last were rejected, both generators follow every verdict the
/// coordinator sent, and the reported pair is the last round's and is
/// accepted. A supply that holds an accepted pair at round `k` stops the run
/// within `k + 1` rounds.
pub fn simulate(
    length_one: usize,
    length_two: usize,
    supply_one: &Vec<Vec<u8>>,
    supply_two: &Vec<Vec<u8>>,
) -> (r: Trace)
    ensures
        r.coordinator@.len() <= rounds_available(supply_one@, supply_two@),
        r.first_generator@ == r.coordinator@,
        r.second_generator@ == r.coordinator@,
        forall|j: int|
            0 <= j < r.coordinator@.len() ==> #[trigger] r.coordinator@[j] == round_verdict(
                supply_one@,
                supply_two@,
                j,
            ),
        forall|j: int| 0 <= j < r.coordinator@.len() - 1 ==> #[trigger] r.coordinator@[j],
        match r.accepted {
            Some((first, second)) => {
                &&& r.coordinator@.len() > 0
                &&& first@ == supply_one@[r.coordinator@.len() - 1]@
                &&& second@ == supply_two@[r.coordinator@.len() - 1]@
                &&& accepts(first@, second@)
            },
            None => {
                &&& r.coordinator@.len() == rounds_available(supply_one@, supply_two@)
                &&& forall|j: int| 0 <= j < r.coordinator@.len() ==> #[trigger] r.coordinator@[j]
            },
        },
        forall|k: int|
            0 <= k < rounds_available(supply_one@, supply_two@) && accepts(
                #[trigger] supply_one@[k]@,
                supply_two@[k]@,
            ) ==> r.accepted is Some && r.coordinator@.len() <= k + 1,
{
    let n: usize = if supply_one.len() <= supply_two.len() {
        supply_one.len()
    } else {
        supply_two.len()
    };
    let mut coordinator_verdicts: Vec<bool> = Vec::new();
    let mut first_verdicts: Vec<bool> = Vec::new();
    let mut second_verdicts: Vec<bool> = Vec::new();

    let mut coordinator = Coordinator::new();
    let mut gen_one = Generator::new(length_one);
    let mut gen_two = Generator::new(length_two);
    let (c, _) = coordinator.step(Event::Started);
    coordinator = c;
    let _ = gen_one.step(Event::Started);
    let _ = gen_two.step(Event::Started);

    let mut i: usize = 0;
    while i < n
        invariant
            n == rounds_available(supply_one@, supply_two@),
            i <= n,
            coordinator == Coordinator::AwaitingFirst,
            gen_one.phase == GeneratorPhase::Generating,
            gen_two.phase == GeneratorPhase::Generating,
            coordinator_verdicts@.len() == i,
            first_verdicts@ == coordinator_verdicts@,
            second_verdicts@ == coordinator_verdicts@,
            forall|j: int|
                0 <= j < i ==> #[trigger] coordinator_verdicts@[j] == round_verdict(
                    supply_one@,
                    supply_two@,
                    j,
                ),
            forall|j: int| 0 <= j < i ==> #[trigger] coordinator_verdicts@[j],
        decreases n - i,
    {
        let candidate_one = match gen_one.step(Event::Sampled(copy_bytes(&supply_one[i]))) {
            Action::SendCandidate { candidate } => candidate,
            _ => {
                proof {
                    assert(false);
                }
                Vec::new()
            },
        };
        let _ = gen_one.step(Event::Sent);
        let candidate_two = match gen_two.step(Event::Sampled(copy_bytes(&supply_two[i]))) {
            Action::SendCandidate { candidate } => candidate,
            _ => {
                proof {
                    assert(false);
                }
                Vec::new()
            },
        };
        let _ = gen_two.step(Event::Sent);

        let (c, _) = coordinator.step(Event::Candidate(candidate_one));
        let (c, broadcast) = c.step(Event::Candidate(candidate_two));
        let repeat = match broadcast {
            Action::BroadcastVerdict { repeat } => repeat,
            _ => {
                proof {
                    assert(false);
                }
                false
            },
        };
        let (c, after) = c.step(Event::Sent);
        coordinator_verdicts.push(repeat);

        let next_one = gen_one.step(Event::Verdict(repeat));
        first_verdicts.push(went_on(&next_one));
        let next_two = gen_two.step(Event::Verdict(repeat));
        second_verdicts.push(went_on(&next_two));

        if !repeat {
            proof {
                assert forall|k: int|
                    0 <= k < n && accepts(#[trigger] supply_one@[k]@, supply_two@[k]@)
                    implies k >= i by {
                    if k < i {
                        assert(coordinator_verdicts@[k]);
                    }
                }
            }
            let accepted = match after {
                Action::Report { first, second } => Some((first, second)),
                _ => {
                    proof {
                        assert(false);
                    }
                    None
                },
            };
            return Trace {
                coordinator: coordinator_verdicts,
                first_generator: first_verdicts,
                second_generator: second_verdicts,
                accepted,
            };
        }
        coordinator = c;
        i = i + 1;
    }
    proof {
        assert forall|k: int|
            0 <= k < n && accepts(#[trigger] supply_one@[k]@, supply_two@[k]@)
                implies k >= i by {
            if k < i {
                assert(coordinator_verdicts@[k]);
            }
        }
    }
    Trace {
        coordinator: coordinator_verdicts,
        first_generator: first_verdicts,
        second_generator: second_verdicts,
        accepted: None,
    }
}

} // verus!
