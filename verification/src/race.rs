//! The race between the candidates: which fetch to start next, when to wait,
//! and who has won.
//!
//! The candidates stand in the order of the harvest, one lane each. The caller
//! does the fetching, at most `limit` at a time, and reports what arrives in
//! whatever order it arrives. The race is won by the first lane, in the order
//! of the harvest, that arrived valid while every lane before it failed; no
//! order of arrival can make another lane win.

use vstd::prelude::*;

use crate::errors::FavilibError;
use crate::favicon::Favicon;
use crate::resolver::first_present_at;

verus! {

/// How many fetches are in flight at most, unless the caller says otherwise.
pub const DEFAULT_LIMIT: usize = 10;

/// Where one candidate stands.
#[derive(Debug)]
pub enum Lane {
    /// Its fetch has not been started.
    Waiting,
    /// Its fetch is in flight.
    Running,
    /// Its fetch failed, or what came back does not decode.
    Failed,
    /// It arrived as this favicon.
    Valid(Favicon),
}

/// What the caller is to do next.
#[derive(Debug, Clone, Copy, PartialEq, Eq, Structural)]
pub enum Step {
    /// Start the fetch of the candidate in this lane.
    Start(usize),
    /// Wait for a fetch to arrive and report it.
    Wait,
    /// The race is decided: finish it.
    Done,
}

/// How many lanes are in flight.
pub open spec fn running(lanes: Seq<Lane>) -> nat
    decreases lanes.len(),
{
    if lanes.len() == 0 {
        0
    } else {
        running(lanes.drop_last()) + if lanes.last() is Running {
            1nat
        } else {
            0nat
        }
    }
}

/// Every lane before `at` has failed.
pub open spec fn failed_before(lanes: Seq<Lane>, at: int) -> bool {
    forall|k: int| 0 <= k < at ==> (#[trigger] lanes[k]) is Failed
}

/// The lane at `at` has won: it is valid and every lane before it has failed.
pub open spec fn wins_at(lanes: Seq<Lane>, at: int) -> bool {
    &&& 0 <= at < lanes.len()
    &&& lanes[at] is Valid
    &&& failed_before(lanes, at)
}

/// Some lane has won.
pub open spec fn won(lanes: Seq<Lane>) -> bool {
    exists|at: int| wins_at(lanes, at)
}

/// Every lane has failed.
pub open spec fn lost(lanes: Seq<Lane>) -> bool {
    failed_before(lanes, lanes.len() as int)
}

/// The race is decided: a lane has won, or all have failed.
pub open spec fn decided(lanes: Seq<Lane>) -> bool {
    won(lanes) || lost(lanes)
}

/// The lane at `at` is the one to start next: it waits, and every lane before
/// it is in flight or has failed. A lane behind a valid one is never started,
/// since it cannot win.
pub open spec fn starts_at(lanes: Seq<Lane>, at: int) -> bool {
    &&& 0 <= at < lanes.len()
    &&& lanes[at] is Waiting
    &&& forall|k: int| 0 <= k < at ==> (#[trigger] lanes[k]) is Running || lanes[k] is Failed
}

/// What is to be done next in a race with these lanes and this limit.
pub open spec fn next_step(lanes: Seq<Lane>, limit: nat) -> Step {
    if decided(lanes) {
        Step::Done
    } else if running(lanes) < limit && exists|at: int| starts_at(lanes, at) {
        Step::Start((choose|at: int| starts_at(lanes, at)) as usize)
    } else {
        Step::Wait
    }
}

/// The lanes after a step was handed out: a lane that is started is in
/// flight, and nothing else changes.
pub open spec fn after_step(lanes: Seq<Lane>, step: Step) -> Seq<Lane> {
    match step {
        Step::Start(at) => lanes.update(at as int, Lane::Running),
        _ => lanes,
    }
}

/// The lanes after something arrived for the lane `at`: a lane in flight
/// becomes valid or failed, and an arrival for any other lane is passed over.
pub open spec fn after_arrival(lanes: Seq<Lane>, at: int, outcome: Option<Favicon>) -> Seq<Lane> {
    if 0 <= at < lanes.len() && lanes[at] is Running {
        lanes.update(
            at,
            match outcome {
                Some(favicon) => Lane::Valid(favicon),
                None => Lane::Failed,
            },
        )
    } else {
        lanes
    }
}

/// What the race ends with: the favicon of the lane that has won, or
/// `NoFaviconFound` where none has.
pub open spec fn verdict(lanes: Seq<Lane>) -> Result<Favicon, FavilibError> {
    if won(lanes) {
        Ok(lanes[choose|at: int| wins_at(lanes, at)]->Valid_0)
    } else {
        Err(FavilibError::NoFaviconFound)
    }
}

/// Putting a lane in place of another changes the number in flight by what
/// the two lanes count.
pub proof fn lemma_running_update(lanes: Seq<Lane>, at: int, lane: Lane)
    requires
        0 <= at < lanes.len(),
    ensures
        running(lanes.update(at, lane)) + (if lanes[at] is Running {
            1nat
        } else {
            0nat
        }) == running(lanes) + (if lane is Running {
            1nat
        } else {
            0nat
        }),
    decreases lanes.len(),
{
    if at == lanes.len() - 1 {
        assert(lanes.update(at, lane).drop_last() =~= lanes.drop_last());
    } else {
        assert(lanes.update(at, lane).drop_last() =~= lanes.drop_last().update(at, lane));
        lemma_running_update(lanes.drop_last(), at, lane);
    }
}

/// Where a lane is in flight, the number in flight is not zero.
pub proof fn lemma_running_counts(lanes: Seq<Lane>, at: int)
    requires
        0 <= at < lanes.len(),
        lanes[at] is Running,
    ensures
        running(lanes) > 0,
    decreases lanes.len(),
{
    if at < lanes.len() - 1 {
        lemma_running_counts(lanes.drop_last(), at);
    }
}

/// Where no lane is in flight, the number in flight is zero.
pub proof fn lemma_running_none(lanes: Seq<Lane>)
    requires
        forall|k: int| 0 <= k < lanes.len() ==> !((#[trigger] lanes[k]) is Running),
    ensures
        running(lanes) == 0,
    decreases lanes.len(),
{
    if lanes.len() > 0 {
        lemma_running_none(lanes.drop_last());
    }
}

/// At most one lane has won.
pub proof fn lemma_winner_is_unique(lanes: Seq<Lane>, first: int, second: int)
    requires
        wins_at(lanes, first),
        wins_at(lanes, second),
    ensures
        first == second,
{
    if first < second {
        assert(lanes[first] is Failed);
    } else if second < first {
        assert(lanes[second] is Failed);
    }
}

/// At most one lane is the one to start next.
pub proof fn lemma_start_is_unique(lanes: Seq<Lane>, first: int, second: int)
    requires
        starts_at(lanes, first),
        starts_at(lanes, second),
    ensures
        first == second,
{
    if first < second {
        assert(lanes[first] is Running || lanes[first] is Failed);
    } else if second < first {
        assert(lanes[second] is Running || lanes[second] is Failed);
    }
}

/// A race among the candidates of one harvest.
pub struct Race {
    lanes: Vec<Lane>,
    limit: usize,
    in_flight: usize,
}

/// A [`Race`] as a mathematical value.
pub struct RaceView {
    pub lanes: Seq<Lane>,
    pub limit: nat,
}

impl View for Race {
    type V = RaceView;

    closed spec fn view(&self) -> RaceView {
        RaceView { lanes: self.lanes@, limit: self.limit as nat }
    }
}

impl Race {
    #[verifier::type_invariant]
    spec fn bounded(&self) -> bool {
        &&& self.limit > 0
        &&& self.in_flight == running(self.lanes@)
        &&& self.in_flight <= self.limit
    }

    /// A race among `candidates` candidates, none of them started, with at
    /// most `limit` fetches in flight.
    pub fn new(candidates: usize, limit: usize) -> (race: Race)
        requires
            limit > 0,
        ensures
            race@.limit == limit,
            race@.lanes.len() == candidates,
            forall|k: int| 0 <= k < candidates ==> (#[trigger] race@.lanes[k]) is Waiting,
            running(race@.lanes) == 0,
    {
        let mut lanes: Vec<Lane> = Vec::new();
        while lanes.len() < candidates
            invariant
                lanes.len() <= candidates,
                forall|k: int| 0 <= k < lanes.len() ==> (#[trigger] lanes@[k]) is Waiting,
            decreases candidates - lanes.len(),
        {
            lanes.push(Lane::Waiting);
        }
        proof {
            lemma_running_none(lanes@);
        }
        Race { lanes, limit, in_flight: 0 }
    }

    /// How many fetches are in flight: never more than the limit.
    pub fn in_flight(&self) -> (count: usize)
        ensures
            count == running(self@.lanes),
            count <= self@.limit,
    {
        proof {
            use_type_invariant(self);
        }
        self.in_flight
    }

    /// How many candidates are in the race.
    pub fn len(&self) -> (count: usize)
        ensures
            count == self@.lanes.len(),
    {
        self.lanes.len()
    }

    /// Tells what to do next, and counts a fetch that is to be started as in
    /// flight.
    ///
    /// The race is done as soon as it is decided. Else the first lane that
    /// waits behind lanes in flight or failed is started, unless the limit is
    /// reached. Else the caller waits, and then a fetch is in flight to wait
    /// for.
    pub fn step(self) -> (next: (Race, Step))
        ensures
            next.1 == next_step(self@.lanes, self@.limit),
            next.0@.lanes == after_step(self@.lanes, next.1),
            next.0@.limit == self@.limit,
            running(next.0@.lanes) <= next.0@.limit,
            next.1 is Wait ==> running(next.0@.lanes) > 0,
            next.1 matches Step::Start(at) ==> starts_at(self@.lanes, at as int) && running(
                next.0@.lanes,
            ) == running(self@.lanes) + 1,
    {
        proof {
            use_type_invariant(&self);
        }
        let ghost all = self.lanes@;
        let limit = self.limit;
        let in_flight = self.in_flight;
        let mut lanes = self.lanes;
        let count = lanes.len();
        let mut first: usize = 0;
        while first < count && matches!(lanes[first], Lane::Failed)
            invariant
                lanes@ == all,
                count == all.len(),
                first <= count,
                failed_before(all, first as int),
            decreases count - first,
        {
            first += 1;
        }
        if first == count {
            assert(lost(all));
            return (Race { lanes, limit, in_flight }, Step::Done);
        }
        if matches!(lanes[first], Lane::Valid(_)) {
            assert(wins_at(all, first as int));
            return (Race { lanes, limit, in_flight }, Step::Done);
        }
        assert(!decided(all)) by {
            assert(!(all[first as int] is Failed));
            assert forall|at: int| wins_at(all, at) implies false by {
                if at > first {
                    assert(all[first as int] is Failed);
                }
            }
        }
        let mut next: usize = first;
        while next < count && matches!(lanes[next], Lane::Running | Lane::Failed)
            invariant
                lanes@ == all,
                count == all.len(),
                first <= next <= count,
                forall|k: int| 0 <= k < next ==> (#[trigger] all[k]) is Running || all[k] is Failed,
            decreases count - next,
        {
            next += 1;
        }
        if next < count && matches!(lanes[next], Lane::Waiting) {
            assert(starts_at(all, next as int));
            assert forall|at: int| starts_at(all, at) implies at == next by {
                lemma_start_is_unique(all, at, next as int);
            }
            if in_flight < limit {
                proof {
                    lemma_running_update(all, next as int, Lane::Running);
                }
                lanes.set(next, Lane::Running);
                return (Race { lanes, limit, in_flight: in_flight + 1 }, Step::Start(next));
            }
            return (Race { lanes, limit, in_flight }, Step::Wait);
        }
        assert forall|at: int| !starts_at(all, at) by {
            if starts_at(all, at) {
                if at < next {
                    assert(all[at] is Running || all[at] is Failed);
                } else if next < count {
                    assert(all[next as int] is Running || all[next as int] is Failed);
                }
            }
        }
        assert(all[first as int] is Running);
        proof {
            lemma_running_counts(all, first as int);
        }
        (Race { lanes, limit, in_flight }, Step::Wait)
    }

    /// Reports what arrived for the candidate in the lane `at`: its favicon,
    /// or `None` where its fetch failed or what came back does not decode.
    /// An arrival for a lane that is not in flight is passed over.
    pub fn arrive(self, at: usize, outcome: Option<Favicon>) -> (race: Race)
        ensures
            race@.lanes == after_arrival(self@.lanes, at as int, outcome),
            race@.limit == self@.limit,
            running(race@.lanes) <= running(self@.lanes) <= self@.limit,
    {
        proof {
            use_type_invariant(&self);
        }
        let ghost all = self.lanes@;
        let limit = self.limit;
        let in_flight = self.in_flight;
        let mut lanes = self.lanes;
        if at < lanes.len() && matches!(lanes[at], Lane::Running) {
            let lane = match outcome {
                Some(favicon) => Lane::Valid(favicon),
                None => Lane::Failed,
            };
            proof {
                lemma_running_update(all, at as int, lane);
                lemma_running_counts(all, at as int);
            }
            lanes.set(at, lane);
            Race { lanes, limit, in_flight: in_flight - 1 }
        } else {
            Race { lanes, limit, in_flight }
        }
    }

    /// Ends the race: the favicon of the lane that has won. Fails with
    /// `NoFaviconFound` where no lane has won, be it that all have failed or
    /// that the race is ended before it is decided.
    pub fn finish(self) -> (outcome: Result<Favicon, FavilibError>)
        ensures
            outcome == verdict(self@.lanes),
            match outcome {
                Ok(favicon) => exists|at: int|
                    wins_at(self@.lanes, at) && self@.lanes[at] == Lane::Valid(favicon),
                Err(error) => error == FavilibError::NoFaviconFound && !won(self@.lanes),
            },
    {
        let ghost all = self.lanes@;
        let mut lanes = self.lanes;
        let mut at: usize = 0;
        while at < lanes.len() && matches!(lanes[at], Lane::Failed)
            invariant
                lanes@ == all,
                at <= lanes.len(),
                failed_before(all, at as int),
            decreases lanes.len() - at,
        {
            at += 1;
        }
        if at < lanes.len() {
            match lanes.swap_remove(at) {
                Lane::Valid(favicon) => {
                    assert(wins_at(all, at as int));
                    assert forall|other: int| wins_at(all, other) implies other == at by {
                        lemma_winner_is_unique(all, other, at as int);
                    }
                    return Ok(favicon);
                },
                _ => {},
            }
        }
        assert forall|other: int| !wins_at(all, other) by {
            if wins_at(all, other) {
                if other < at {
                    assert(all[other] is Failed);
                } else if at < all.len() && other > at {
                    assert(all[at as int] is Failed);
                }
            }
        }
        Err(FavilibError::NoFaviconFound)
    }
}

/// The lanes report nothing but what the candidates give: a failed lane
/// stands for a candidate that gives no favicon, and a valid lane holds the
/// favicon that its candidate gives. `outcomes` holds, in the order of the
/// harvest, what each candidate gives whenever it arrives.
pub open spec fn agrees_with(lanes: Seq<Lane>, outcomes: Seq<Option<Favicon>>) -> bool {
    &&& lanes.len() == outcomes.len()
    &&& forall|k: int|
        0 <= k < lanes.len() ==> match #[trigger] lanes[k] {
            Lane::Failed => outcomes[k] is None,
            Lane::Valid(favicon) => outcomes[k] == Some(favicon),
            _ => true,
        }
}

/// No order of arrival decides the race. Whichever fetches have arrived and
/// in whichever order, a race that is decided ends with the favicon of the
/// first candidate, in the order of the harvest, that gives one, and with
/// `NoFaviconFound` where no candidate gives one.
pub proof fn lemma_decided_race_picks_first_valid(lanes: Seq<Lane>, outcomes: Seq<Option<Favicon>>)
    requires
        agrees_with(lanes, outcomes),
        decided(lanes),
    ensures
        match verdict(lanes) {
            Ok(favicon) => exists|at: int|
                first_present_at(outcomes, at) && outcomes[at] == Some(favicon),
            Err(error) => error == FavilibError::NoFaviconFound && forall|at: int|
                0 <= at < outcomes.len() ==> outcomes[at] is None,
        },
{
    if won(lanes) {
        let at = choose|at: int| wins_at(lanes, at);
        assert forall|earlier: int| 0 <= earlier < at implies outcomes[earlier] is None by {
            assert(lanes[earlier] is Failed);
        }
        assert(first_present_at(outcomes, at) && outcomes[at] == Some(lanes[at]->Valid_0));
    } else {
        assert forall|at: int| 0 <= at < outcomes.len() implies outcomes[at] is None by {
            assert(lanes[at] is Failed);
        }
    }
}

/// Starting a fetch, and the arrival of what a candidate gives, leave the
/// lanes in agreement with what the candidates give.
pub proof fn lemma_race_keeps_agreement(
    lanes: Seq<Lane>,
    outcomes: Seq<Option<Favicon>>,
    limit: nat,
    at: int,
)
    requires
        agrees_with(lanes, outcomes),
        0 <= at < lanes.len() <= usize::MAX,
    ensures
        agrees_with(after_step(lanes, next_step(lanes, limit)), outcomes),
        agrees_with(after_arrival(lanes, at, outcomes[at]), outcomes),
{
    let step = next_step(lanes, limit);
    let started = after_step(lanes, step);
    assert forall|k: int| 0 <= k < started.len() implies match #[trigger] started[k] {
        Lane::Failed => outcomes[k] is None,
        Lane::Valid(favicon) => outcomes[k] == Some(favicon),
        _ => true,
    } by {
        if step matches Step::Start(lane) {
            let chosen = choose|at: int| starts_at(lanes, at);
            assert(starts_at(lanes, chosen));
            if k != chosen {
                assert(started[k] == lanes[k]);
            }
        } else {
            assert(started[k] == lanes[k]);
        }
    }
    let arrived = after_arrival(lanes, at, outcomes[at]);
    assert forall|k: int| 0 <= k < arrived.len() implies match #[trigger] arrived[k] {
        Lane::Failed => outcomes[k] is None,
        Lane::Valid(favicon) => outcomes[k] == Some(favicon),
        _ => true,
    } by {
        if k != at {
            assert(arrived[k] == lanes[k]);
        }
    }
}

/// A race that is decided stays decided, with the same end, whatever arrives
/// afterwards: the fetches still in flight can be abandoned.
pub proof fn lemma_decided_race_is_stable(lanes: Seq<Lane>, at: int, outcome: Option<Favicon>)
    requires
        decided(lanes),
    ensures
        decided(after_arrival(lanes, at, outcome)),
        verdict(after_arrival(lanes, at, outcome)) == verdict(lanes),
{
    let later = after_arrival(lanes, at, outcome);
    if won(lanes) {
        let winner = choose|winner: int| wins_at(lanes, winner);
        if later != lanes {
            if at < winner {
                assert(lanes[at] is Failed);
            }
            assert(later[winner] == lanes[winner]);
            assert forall|k: int| 0 <= k < winner implies (#[trigger] later[k]) is Failed by {
                assert(lanes[k] is Failed);
            }
        }
        assert(wins_at(later, winner));
        let again = choose|again: int| wins_at(later, again);
        lemma_winner_is_unique(later, again, winner);
    } else {
        if 0 <= at < lanes.len() {
            assert(lanes[at] is Failed);
        }
        assert(later == lanes);
    }
}

/// How many lanes wait to be started.
pub open spec fn waiting(lanes: Seq<Lane>) -> nat
    decreases lanes.len(),
{
    if lanes.len() == 0 {
        0
    } else {
        waiting(lanes.drop_last()) + if lanes.last() is Waiting {
            1nat
        } else {
            0nat
        }
    }
}

/// How much of the race is left at most: two steps for every lane that waits,
/// its start and its arrival, and one for every lane in flight.
pub open spec fn work_left(lanes: Seq<Lane>) -> nat {
    2 * waiting(lanes) + running(lanes)
}

/// Putting a lane in place of another changes the number that wait by what
/// the two lanes count.
pub proof fn lemma_waiting_update(lanes: Seq<Lane>, at: int, lane: Lane)
    requires
        0 <= at < lanes.len(),
    ensures
        waiting(lanes.update(at, lane)) + (if lanes[at] is Waiting {
            1nat
        } else {
            0nat
        }) == waiting(lanes) + (if lane is Waiting {
            1nat
        } else {
            0nat
        }),
    decreases lanes.len(),
{
    if at == lanes.len() - 1 {
        assert(lanes.update(at, lane).drop_last() =~= lanes.drop_last());
    } else {
        assert(lanes.update(at, lane).drop_last() =~= lanes.drop_last().update(at, lane));
        lemma_waiting_update(lanes.drop_last(), at, lane);
    }
}

/// The race comes to an end: every fetch that is started, and every arrival
/// for a lane in flight, leaves one step less to do.
pub proof fn lemma_race_advances(lanes: Seq<Lane>, limit: nat, at: int, outcome: Option<Favicon>)
    requires
        lanes.len() <= usize::MAX,
    ensures
        next_step(lanes, limit) is Start ==> work_left(after_step(lanes, next_step(lanes, limit)))
            + 1 == work_left(lanes),
        0 <= at < lanes.len() && lanes[at] is Running ==> work_left(
            after_arrival(lanes, at, outcome),
        ) + 1 == work_left(lanes),
{
    if next_step(lanes, limit) matches Step::Start(lane) {
        let chosen = choose|at: int| starts_at(lanes, at);
        assert(starts_at(lanes, chosen));
        lemma_waiting_update(lanes, chosen, Lane::Running);
        lemma_running_update(lanes, chosen, Lane::Running);
    }
    if 0 <= at < lanes.len() && lanes[at] is Running {
        let lane = match outcome {
            Some(favicon) => Lane::Valid(favicon),
            None => Lane::Failed,
        };
        lemma_waiting_update(lanes, at, lane);
        lemma_running_update(lanes, at, lane);
    }
}

} // verus!
