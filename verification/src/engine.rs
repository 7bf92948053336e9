//! The polling engine: which fetch to launch, when to wait, when to sleep,
//! and what a finished fetch does to the registry.
//!
//! The engine does no waiting of its own. Whoever drives it asks `poll` what
//! to do next, does it, and reports each finished fetch to `settle`.

use vstd::prelude::*;
use crate::metrics::{publish_metrics, Cells, Registry};
use crate::quote::{Quote, QuoteView};
use crate::upstream::{FailedFetch, FetchFailure};

verus! {

/// Time from the start of one round to the start of the next, in
/// milliseconds.
pub const QUERY_INTERVAL_MS: u64 = 30_000;

/// How many fetches may be outstanding at once.
pub const CONCURRENT_REQUESTS: usize = 2;

/// Where the engine stands.
#[derive(Clone, Copy, Debug, PartialEq, Eq, Structural)]
pub enum Phase {
    /// No round has begun yet.
    Idle,
    /// A round is under way: fetches are launched and settled.
    Fetching,
    /// The round is over and the next one is not due yet.
    Sleeping,
}

/// What the driver is to do next.
#[derive(Clone, Copy, Debug, PartialEq, Eq, Structural)]
pub enum Action {
    /// Start the fetch of the symbol at this place in the list, then poll
    /// again.
    Launch(usize),
    /// Wait until one outstanding fetch has finished, settle it, then poll
    /// again.
    AwaitCompletion,
    /// Sleep this many milliseconds, then poll again.
    Sleep(u64),
}

/// The engine's state as a mathematical value.
pub struct Schedule {
    /// How many symbols a round fetches.
    pub symbols: nat,
    /// How many fetches may be outstanding at once.
    pub max_in_flight: nat,
    /// Time from the start of one round to the start of the next.
    pub interval: nat,
    pub phase: Phase,
    /// How many rounds have begun.
    pub round: nat,
    /// When the round began that is under way or was the last.
    pub round_start: nat,
    /// How many fetches of the round have been launched.
    pub launched: nat,
    /// How many fetches of the round have been settled.
    pub settled: nat,
}

impl Schedule {
    /// The state before the first round.
    pub open spec fn initial(symbols: nat, max_in_flight: nat, interval: nat) -> Schedule {
        Schedule {
            symbols,
            max_in_flight,
            interval,
            phase: Phase::Idle,
            round: 0,
            round_start: 0,
            launched: 0,
            settled: 0,
        }
    }

    /// How many fetches are outstanding.
    pub open spec fn in_flight(self) -> int {
        self.launched - self.settled
    }

    /// What holds of every state that the engine reaches.
    pub open spec fn well_formed(self) -> bool {
        &&& 1 <= self.symbols <= usize::MAX
        &&& 1 <= self.max_in_flight
        &&& self.interval <= u64::MAX
        &&& self.settled <= self.launched <= self.symbols
        &&& self.in_flight() <= self.max_in_flight
        &&& self.phase is Idle ==> self.round == 0 && self.launched == 0
        &&& self.phase is Fetching ==> self.round >= 1 && self.launched >= 1
        &&& self.phase is Sleeping ==> self.round >= 1 && self.round_over()
    }

    /// Every fetch of the round has been launched and settled.
    pub open spec fn round_over(self) -> bool {
        self.launched == self.symbols && self.settled == self.symbols
    }

    /// Whether the next fetch of the round can be launched now.
    pub open spec fn can_launch(self) -> bool {
        &&& self.phase is Fetching
        &&& self.launched < self.symbols
        &&& self.in_flight() < self.max_in_flight
    }

    /// Time since the round began; none where the clock has gone back.
    pub open spec fn elapsed(self, now: nat) -> nat {
        if now >= self.round_start {
            (now - self.round_start) as nat
        } else {
            0
        }
    }

    /// Whether the next round is due.
    pub open spec fn round_due(self, now: nat) -> bool {
        self.phase is Idle || self.elapsed(now) >= self.interval
    }

    /// The state after a new round has begun and its first fetch was handed
    /// out.
    pub open spec fn begun(self, now: nat) -> Schedule {
        Schedule {
            phase: Phase::Fetching,
            round: self.round + 1,
            round_start: now,
            launched: 1,
            settled: 0,
            ..self
        }
    }

    /// The state after one poll at time `now`.
    pub open spec fn polled(self, now: nat) -> Schedule {
        if self.can_launch() {
            Schedule { launched: self.launched + 1, ..self }
        } else if self.phase is Fetching && self.in_flight() > 0 {
            self
        } else if self.round_due(now) {
            self.begun(now)
        } else {
            Schedule { phase: Phase::Sleeping, ..self }
        }
    }

    /// What one poll at time `now` asks for.
    pub open spec fn action(self, now: nat) -> Action {
        if self.can_launch() {
            Action::Launch(self.launched as usize)
        } else if self.phase is Fetching && self.in_flight() > 0 {
            Action::AwaitCompletion
        } else if self.round_due(now) {
            Action::Launch(0)
        } else {
            Action::Sleep((self.interval - self.elapsed(now)) as u64)
        }
    }

    /// The state after one outstanding fetch was settled.
    pub open spec fn settled_one(self) -> Schedule {
        Schedule { settled: self.settled + 1, ..self }
    }
}

/// The cells after a fetch was settled: a quote is published, a failure
/// changes nothing.
pub open spec fn settled_cells(cells: Cells, outcome: Result<QuoteView, FailedFetch>) -> Cells {
    match outcome {
        Ok(quote) => cells.published(quote),
        Err(_) => cells,
    }
}

/// The cells after the fetches of a round were settled in the given order.
pub open spec fn settled_round(cells: Cells, outcomes: Seq<Result<QuoteView, FailedFetch>>) -> Cells
    decreases outcomes.len(),
{
    if outcomes.len() == 0 {
        cells
    } else {
        settled_cells(settled_round(cells, outcomes.drop_last()), outcomes.last())
    }
}

/// A fetch's result with both sides taken by their views.
pub open spec fn outcome_view(outcome: Result<Quote, FetchFailure>) -> Result<QuoteView, FailedFetch> {
    match outcome {
        Ok(quote) => Ok(quote@),
        Err(failure) => Err(failure@),
    }
}

/// The failure of a fetch, if it failed.
pub open spec fn failure_of(outcome: Result<Quote, FetchFailure>) -> Option<FetchFailure> {
    match outcome {
        Ok(_) => None,
        Err(failure) => Some(failure),
    }
}

/// A failed fetch leaves every cell as it was.
pub proof fn lemma_failure_changes_nothing(cells: Cells, failure: FailedFetch)
    ensures
        settled_cells(cells, Err(failure)) == cells,
{
}

/// Failures are isolated: where one fetch of a round gives a quote and
/// another fails, in either order, the cells of the quote's label tuple hold
/// its values and the cells of every other key are as before the round.
pub proof fn lemma_failure_isolated(cells: Cells, quote: QuoteView, failure: FailedFetch, other: u64)
    requires
        other != quote.key(),
    ensures
        ({
            let after = settled_round(cells, seq![Ok(quote), Err(failure)]);
            &&& after == settled_round(cells, seq![Err(failure), Ok(quote)])
            &&& after.has(quote.key())
            &&& after.at(quote.key()) == quote.sample()
            &&& after.has(other) == cells.has(other)
            &&& after.at(other) == cells.at(other)
        }),
{
    let success: Result<QuoteView, FailedFetch> = Ok(quote);
    let miss: Result<QuoteView, FailedFetch> = Err(failure);
    let first = seq![success, miss];
    let second = seq![miss, success];
    let none = Seq::<Result<QuoteView, FailedFetch>>::empty();
    assert(first.drop_last() =~= seq![success]);
    assert(seq![success].drop_last() =~= none);
    assert(second.drop_last() =~= seq![miss]);
    assert(seq![miss].drop_last() =~= none);
    assert(settled_round(cells, none) == cells);
    assert(settled_round(cells, seq![success]) == cells.published(quote));
    assert(settled_round(cells, seq![miss]) == cells);
    assert(settled_round(cells, first) == cells.published(quote));
    assert(settled_round(cells, second) == cells.published(quote));
}

/// The cap holds: a poll keeps the number of outstanding fetches within the
/// cap, and hands out a fetch only while fewer than the cap are outstanding.
pub proof fn lemma_cap_respected(schedule: Schedule, now: nat)
    requires
        schedule.well_formed(),
    ensures
        schedule.polled(now).well_formed(),
        schedule.polled(now).in_flight() <= schedule.max_in_flight,
        schedule.action(now) is Launch ==> schedule.in_flight() < schedule.max_in_flight
            && schedule.polled(now).in_flight() == schedule.in_flight() + 1,
        !(schedule.action(now) is Launch) ==> schedule.polled(now).in_flight() == schedule.in_flight(),
{
}

/// Settling an outstanding fetch keeps the state well formed and takes one
/// off the number outstanding.
pub proof fn lemma_settle_keeps_cap(schedule: Schedule)
    requires
        schedule.well_formed(),
        schedule.in_flight() > 0,
    ensures
        schedule.settled_one().well_formed(),
        schedule.settled_one().in_flight() == schedule.in_flight() - 1,
        schedule.settled_one().round == schedule.round,
{
}

/// One step of a driver: a poll at some time, or the settling of a fetch.
pub enum Step {
    Poll(nat),
    Settle,
}

/// The state after one step. Settling with no fetch outstanding is no step.
pub open spec fn stepped(schedule: Schedule, step: Step) -> Schedule {
    match step {
        Step::Poll(now) => schedule.polled(now),
        Step::Settle => if schedule.in_flight() > 0 {
            schedule.settled_one()
        } else {
            schedule
        },
    }
}

/// The state after a run of steps.
pub open spec fn run(schedule: Schedule, steps: Seq<Step>) -> Schedule
    decreases steps.len(),
{
    if steps.len() == 0 {
        schedule
    } else {
        stepped(run(schedule, steps.drop_last()), steps.last())
    }
}

/// At no instant are more fetches outstanding than the cap allows: whatever
/// the driver does, in whatever order, the state stays well formed.
pub proof fn lemma_cap_holds_always(schedule: Schedule, steps: Seq<Step>)
    requires
        schedule.well_formed(),
    ensures
        run(schedule, steps).well_formed(),
        0 <= run(schedule, steps).in_flight() <= schedule.max_in_flight,
        run(schedule, steps).max_in_flight == schedule.max_in_flight,
    decreases steps.len(),
{
    if steps.len() > 0 {
        lemma_cap_holds_always(schedule, steps.drop_last());
    }
}

/// Round cadence: by a clock that does not go back, a round that follows
/// another begins no sooner than the interval after that one began, and not
/// before every fetch of that one has been launched and settled.
pub proof fn lemma_round_cadence(schedule: Schedule, now: nat)
    requires
        schedule.well_formed(),
        schedule.round >= 1,
        now >= schedule.round_start,
        schedule.polled(now).round != schedule.round,
    ensures
        schedule.polled(now).round == schedule.round + 1,
        schedule.polled(now).round_start == now,
        now - schedule.round_start >= schedule.interval,
        schedule.round_over(),
        schedule.in_flight() == 0,
{
}

/// A round that has run over its interval is followed at once; one that has
/// not is followed by a sleep for the rest of the interval.
pub proof fn lemma_round_end(schedule: Schedule, now: nat)
    requires
        schedule.well_formed(),
        schedule.round >= 1,
        schedule.round_over(),
        now >= schedule.round_start,
    ensures
        now - schedule.round_start >= schedule.interval ==> schedule.action(now) == Action::Launch(0)
            && schedule.polled(now).round == schedule.round + 1,
        now - schedule.round_start < schedule.interval ==> schedule.action(now) == Action::Sleep(
            (schedule.round_start + schedule.interval - now) as u64,
        ) && schedule.polled(now).round == schedule.round,
{
}

/// Rounds come in order: a step never skips a round, and begins one only
/// when no fetch of an earlier round is outstanding, so that every publish of
/// one round is done before the first fetch of the next is launched.
pub proof fn lemma_rounds_in_order(schedule: Schedule, step: Step)
    requires
        schedule.well_formed(),
    ensures
        stepped(schedule, step).round == schedule.round || stepped(schedule, step).round == schedule.round + 1,
        stepped(schedule, step).round == schedule.round + 1 ==> schedule.in_flight() == 0 && (schedule.round
            >= 1 ==> schedule.settled == schedule.symbols) && stepped(schedule, step).launched == 1
            && stepped(schedule, step).settled == 0,
        step is Settle ==> stepped(schedule, step).round == schedule.round,
        stepped(schedule, step).round == schedule.round ==> stepped(schedule, step).round_start
            == schedule.round_start,
{
}

/// A round begins with the fetch of the first symbol, and no other poll
/// hands that fetch out.
pub proof fn lemma_round_begins_with_first_symbol(schedule: Schedule, now: nat)
    requires
        schedule.well_formed(),
    ensures
        schedule.action(now) == Action::Launch(0) <==> schedule.polled(now).round == schedule.round + 1,
{
}

/// Within a round the symbols are fetched in the order of the list, each
/// once.
pub proof fn lemma_launch_order(schedule: Schedule, now: nat)
    requires
        schedule.well_formed(),
    ensures
        schedule.action(now) matches Action::Launch(i) ==> i + 1 == schedule.polled(now).launched && i
            < schedule.symbols,
{
}

/// The polling engine.
pub struct Engine {
    symbols: usize,
    max_in_flight: usize,
    interval: u64,
    phase: Phase,
    round: Ghost<nat>,
    round_start: u64,
    launched: usize,
    settled: usize,
}

impl View for Engine {
    type V = Schedule;

    closed spec fn view(&self) -> Schedule {
        Schedule {
            symbols: self.symbols as nat,
            max_in_flight: self.max_in_flight as nat,
            interval: self.interval as nat,
            phase: self.phase,
            round: self.round@,
            round_start: self.round_start as nat,
            launched: self.launched as nat,
            settled: self.settled as nat,
        }
    }
}

impl Engine {
    /// The invariant of an engine.
    pub open spec fn well_formed(&self) -> bool {
        self@.well_formed()
    }

    /// An engine for `symbols` symbols that keeps at most `max_in_flight`
    /// fetches outstanding and begins a round every `interval` milliseconds.
    /// There is none for no symbols or no fetches at all.
    pub fn with_limits(symbols: usize, max_in_flight: usize, interval: u64) -> (r: Option<Engine>)
        ensures
            r is Some <==> symbols >= 1 && max_in_flight >= 1,
            r matches Some(engine) ==> engine.well_formed() && engine@ == Schedule::initial(
                symbols as nat,
                max_in_flight as nat,
                interval as nat,
            ),
    {
        if symbols == 0 || max_in_flight == 0 {
            return None;
        }
        Some(
            Engine {
                symbols,
                max_in_flight,
                interval,
                phase: Phase::Idle,
                round: Ghost(0),
                round_start: 0,
                launched: 0,
                settled: 0,
            },
        )
    }

    /// An engine for `symbols` symbols with the fixed cadence and cap.
    pub fn new(symbols: usize) -> (r: Option<Engine>)
        ensures
            r is Some <==> symbols >= 1,
            r matches Some(engine) ==> engine.well_formed() && engine@ == Schedule::initial(
                symbols as nat,
                CONCURRENT_REQUESTS as nat,
                QUERY_INTERVAL_MS as nat,
            ),
    {
        Engine::with_limits(symbols, CONCURRENT_REQUESTS, QUERY_INTERVAL_MS)
    }

    /// Where the engine stands.
    pub fn phase(&self) -> (r: Phase)
        ensures
            r == self@.phase,
    {
        self.phase
    }

    /// How many fetches are outstanding.
    pub fn in_flight(&self) -> (r: usize)
        requires
            self.well_formed(),
        ensures
            r == self@.in_flight(),
    {
        self.launched - self.settled
    }

    /// Says what to do next at time `now`, in milliseconds of a clock that
    /// does not go back, and takes it as done.
    pub fn poll(&mut self, now: u64) -> (action: Action)
        requires
            old(self).well_formed(),
        ensures
            final(self).well_formed(),
            final(self)@ == old(self)@.polled(now as nat),
            action == old(self)@.action(now as nat),
    {
        let in_flight = self.launched - self.settled;
        if self.phase == Phase::Fetching {
            if self.launched < self.symbols && in_flight < self.max_in_flight {
                let next = self.launched;
                self.launched = next + 1;
                return Action::Launch(next);
            }
            if in_flight > 0 {
                return Action::AwaitCompletion;
            }
        }
        let elapsed = if now >= self.round_start {
            now - self.round_start
        } else {
            0
        };
        if self.phase == Phase::Idle || elapsed >= self.interval {
            self.phase = Phase::Fetching;
            self.round = Ghost((self.round@ + 1) as nat);
            self.round_start = now;
            self.launched = 1;
            self.settled = 0;
            Action::Launch(0)
        } else {
            self.phase = Phase::Sleeping;
            Action::Sleep(self.interval - elapsed)
        }
    }

    /// Settles one finished fetch: publishes its quote, or hands back its
    /// failure to be logged and leaves every cell as it was.
    pub fn settle(&mut self, registry: &mut Registry, outcome: Result<Quote, FetchFailure>) -> (r: Option<
        FetchFailure,
    >)
        requires
            old(self).well_formed(),
            old(self)@.in_flight() > 0,
            old(registry).well_formed(),
        ensures
            final(self).well_formed(),
            final(self)@ == old(self)@.settled_one(),
            final(registry).well_formed(),
            final(registry)@ == settled_cells(old(registry)@, outcome_view(outcome)),
            r == failure_of(outcome),
    {
        self.settled = self.settled + 1;
        match outcome {
            Ok(quote) => {
                publish_metrics(registry, quote);
                None
            },
            Err(failure) => Some(failure),
        }
    }
}

} // verus!
