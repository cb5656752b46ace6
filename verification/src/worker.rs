//! A worker's course from start to a full window of samples, as a state
//! machine. The caller does what cannot be done here: it reads the clock,
//! asks the sampler, lets time pass. After each such step it reports what
//! came of it and is told what to do next.

use crate::attestation::{
    attested_payload, carries, drawn_secret, spec_payload_with, wire_view,
};
use crate::binary64::{is_finite, spec_is_finite};
use crate::decimal::spec_is_fixed_decimal;
use crate::error::WorkerError;
use crate::launch::kickoff_reached;
use vstd::prelude::*;

verus! {

/// Where a worker stands.
#[derive(Clone, Copy, Debug, PartialEq, Eq, Structural)]
pub enum WorkerPhase {
    /// The kickoff has not been seen to pass.
    AwaitingKickoff,
    /// A sample is wanted.
    Sampling,
    /// A sample was taken; the interval after it has not passed.
    Pausing,
    /// The window is full.
    Ready,
    /// The worker has failed and takes no further part.
    Failed(WorkerError),
}

/// What the caller reports.
#[derive(Clone, Copy, Debug, PartialEq, Eq, Structural)]
pub enum WorkerEvent {
    /// The clock was read: seconds since the epoch.
    Clock(u64),
    /// The sampler was asked. `None` if the request failed or gave no number,
    /// else the bit pattern of the price.
    Observation(Option<u64>),
    /// The interval after a sample has passed.
    PauseElapsed,
}

/// What the caller is to do next.
#[derive(Clone, Copy, Debug, PartialEq, Eq, Structural)]
pub enum WorkerAction {
    /// Read the clock and report it.
    PollClock,
    /// Ask the sampler for one price and report it.
    RequestSample,
    /// Let one sampling interval pass and report that it has.
    Pause,
    /// Take the observations, compute their mean and have it attested.
    ComputeMean,
    /// Stop with this error.
    Abort(WorkerError),
}

/// A worker as mathematical values.
pub struct WorkerModel {
    pub kickoff: u64,
    pub sample_count: u16,
    pub window: Seq<u64>,
    pub phase: WorkerPhase,
}

/// One worker: when it may begin, how many samples it is to take, and the
/// samples taken so far.
pub struct Worker {
    kickoff: u64,
    sample_count: u16,
    window: Vec<u64>,
    phase: WorkerPhase,
}

impl View for Worker {
    type V = WorkerModel;

    closed spec fn view(&self) -> WorkerModel {
        WorkerModel {
            kickoff: self.kickoff,
            sample_count: self.sample_count,
            window: self.window@,
            phase: self.phase,
        }
    }
}

/// What always holds of a worker: it is to take at least one sample, has
/// never taken more than it is to take, holds finite numbers only, has none
/// before the kickoff, wants one only while some are missing, and is ready
/// only with all of them.
pub open spec fn well_formed(w: WorkerModel) -> bool {
    &&& w.sample_count >= 1
    &&& w.window.len() <= w.sample_count
    &&& forall|i: int| 0 <= i < w.window.len() ==> spec_is_finite(#[trigger] w.window[i])
    &&& w.phase == WorkerPhase::AwaitingKickoff ==> w.window.len() == 0
    &&& w.phase == WorkerPhase::Sampling ==> w.window.len() < w.sample_count
    &&& w.phase == WorkerPhase::Ready ==> w.window.len() == w.sample_count
}

/// A worker as it starts.
pub open spec fn initial(kickoff: u64, sample_count: u16) -> WorkerModel {
    WorkerModel { kickoff, sample_count, window: Seq::empty(), phase: WorkerPhase::AwaitingKickoff }
}

/// What a worker in a given phase asks of its caller.
pub open spec fn pending_action(phase: WorkerPhase) -> WorkerAction {
    match phase {
        WorkerPhase::AwaitingKickoff => WorkerAction::PollClock,
        WorkerPhase::Sampling => WorkerAction::RequestSample,
        WorkerPhase::Pausing => WorkerAction::Pause,
        WorkerPhase::Ready => WorkerAction::ComputeMean,
        WorkerPhase::Failed(e) => WorkerAction::Abort(e),
    }
}

/// The worker after one event. An event that does not answer what the worker
/// asked for changes nothing.
pub open spec fn spec_step(w: WorkerModel, event: WorkerEvent) -> WorkerModel {
    match (w.phase, event) {
        (WorkerPhase::AwaitingKickoff, WorkerEvent::Clock(now)) => if now >= w.kickoff {
            WorkerModel { phase: WorkerPhase::Sampling, ..w }
        } else {
            w
        },
        (WorkerPhase::Sampling, WorkerEvent::Observation(Some(price))) => if spec_is_finite(
            price,
        ) {
            WorkerModel { window: w.window.push(price), phase: WorkerPhase::Pausing, ..w }
        } else {
            WorkerModel { phase: WorkerPhase::Failed(WorkerError::SamplerUnavailable), ..w }
        },
        (WorkerPhase::Sampling, WorkerEvent::Observation(None)) => WorkerModel {
            phase: WorkerPhase::Failed(WorkerError::SamplerUnavailable),
            ..w
        },
        (WorkerPhase::Pausing, WorkerEvent::PauseElapsed) => if w.window.len() < w.sample_count {
            WorkerModel { phase: WorkerPhase::Sampling, ..w }
        } else {
            WorkerModel { phase: WorkerPhase::Ready, ..w }
        },
        _ => w,
    }
}

impl Worker {
    #[verifier::type_invariant]
    spec fn inv(&self) -> bool {
        well_formed(self@)
    }

    /// A worker that is to take `sample_count` samples, none of them before
    /// `kickoff`. A count of zero is refused: there would be no mean.
    pub fn new(kickoff: u64, sample_count: u16) -> (made: Result<Worker, WorkerError>)
        ensures
            sample_count == 0 <==> made is Err,
            made matches Ok(w) ==> w@ == initial(kickoff, sample_count) && well_formed(w@),
            made matches Err(e) ==> e == WorkerError::InvalidSampleCount,
    {
        if sample_count == 0 {
            return Err(WorkerError::InvalidSampleCount);
        }
        Ok(Worker { kickoff, sample_count, window: Vec::new(), phase: WorkerPhase::AwaitingKickoff })
    }

    /// What the worker asks of its caller now.
    pub fn pending(&self) -> (action: WorkerAction)
        ensures
            action == pending_action(self@.phase),
            well_formed(self@),
    {
        proof {
            use_type_invariant(self);
        }
        match self.phase {
            WorkerPhase::AwaitingKickoff => WorkerAction::PollClock,
            WorkerPhase::Sampling => WorkerAction::RequestSample,
            WorkerPhase::Pausing => WorkerAction::Pause,
            WorkerPhase::Ready => WorkerAction::ComputeMean,
            WorkerPhase::Failed(e) => WorkerAction::Abort(e),
        }
    }

    /// Takes in one event: the worker after it, and what to do next.
    pub fn step(self, event: WorkerEvent) -> (next: (Worker, WorkerAction))
        ensures
            next.0@ == spec_step(self@, event),
            next.1 == pending_action(next.0@.phase),
            well_formed(next.0@),
    {
        proof {
            use_type_invariant(&self);
        }
        let Worker { kickoff, sample_count, window, phase } = self;
        let mut window: Vec<u64> = window;
        let phase: WorkerPhase = match (phase, event) {
            (WorkerPhase::AwaitingKickoff, WorkerEvent::Clock(now)) => {
                if kickoff_reached(now, kickoff) {
                    WorkerPhase::Sampling
                } else {
                    WorkerPhase::AwaitingKickoff
                }
            },
            (WorkerPhase::Sampling, WorkerEvent::Observation(Some(price))) => {
                if is_finite(price) {
                    window.push(price);
                    WorkerPhase::Pausing
                } else {
                    WorkerPhase::Failed(WorkerError::SamplerUnavailable)
                }
            },
            (WorkerPhase::Sampling, WorkerEvent::Observation(None)) => {
                WorkerPhase::Failed(WorkerError::SamplerUnavailable)
            },
            (WorkerPhase::Pausing, WorkerEvent::PauseElapsed) => {
                if window.len() < sample_count as usize {
                    WorkerPhase::Sampling
                } else {
                    WorkerPhase::Ready
                }
            },
            (unchanged, _) => unchanged,
        };
        let next: Worker = Worker { kickoff, sample_count, window, phase };
        let action: WorkerAction = next.pending();
        (next, action)
    }

    /// The observations, in the order taken, once the window is full; `None`
    /// before that and after a failure.
    pub fn observations(&self) -> (window: Option<&[u64]>)
        ensures
            window is Some <==> self@.phase == WorkerPhase::Ready,
            window matches Some(prices) ==> prices@ == self@.window && prices@.len()
                == self@.sample_count,
    {
        proof {
            use_type_invariant(self);
        }
        match self.phase {
            WorkerPhase::Ready => Some(self.window.as_slice()),
            _ => None,
        }
    }

    /// Ends the worker with its output: the attested payload for `mean`, the
    /// mean of the observations as the caller computed it, with `mean_text`
    /// as its text. Only a worker whose window is full has an output; a
    /// failed worker gives its failure, and one still on its way gives
    /// nothing. Beyond that, see [`attested_payload`].
    pub fn emit(self, mean: u64, mean_text: &[u8]) -> (wire: Result<Vec<u8>, WorkerError>)
        ensures
            self@.phase matches WorkerPhase::Failed(e) ==> wire == Err::<Vec<u8>, WorkerError>(e),
            self@.phase != WorkerPhase::Ready && !(self@.phase is Failed) ==> wire == Err::<
                Vec<u8>,
                WorkerError,
            >(WorkerError::SamplingIncomplete),
            self@.phase == WorkerPhase::Ready ==> {
                &&& !spec_is_finite(mean) <==> wire == Err::<Vec<u8>, WorkerError>(
                    WorkerError::NonFiniteMean,
                )
                &&& spec_is_finite(mean) && !spec_is_fixed_decimal(mean_text@) <==> wire == Err::<
                    Vec<u8>,
                    WorkerError,
                >(WorkerError::MalformedPayload)
                &&& spec_is_finite(mean) && spec_is_fixed_decimal(mean_text@) ==> exists|
                    secret: Seq<u8>,
                | #[trigger]
                    drawn_secret(secret) && wire_view(wire) == spec_payload_with(
                        secret,
                        mean,
                        mean_text@,
                    )
                &&& wire matches Err(e) ==> e == WorkerError::NonFiniteMean || e
                    == WorkerError::MalformedPayload || e == WorkerError::SigningFailure
            },
            wire matches Ok(bytes) ==> self@.phase == WorkerPhase::Ready && carries(
                bytes@,
                mean,
                mean_text@,
            ),
    {
        match self.phase {
            WorkerPhase::Ready => attested_payload(mean, mean_text),
            WorkerPhase::Failed(e) => Err(e),
            _ => Err(WorkerError::SamplingIncomplete),
        }
    }
}

/// The worker after a sequence of events, taken in order.
pub open spec fn spec_run(w: WorkerModel, events: Seq<WorkerEvent>) -> WorkerModel
    decreases events.len(),
{
    if events.len() == 0 {
        w
    } else {
        spec_step(spec_run(w, events.drop_last()), events.last())
    }
}

/// The events of an undisturbed sampling: for each price in turn, the
/// observation of it and the end of the interval after it.
pub open spec fn sampling_events(prices: Seq<u64>) -> Seq<WorkerEvent> {
    Seq::new(
        2 * prices.len(),
        |i: int|
            if i % 2 == 0 {
                WorkerEvent::Observation(Some(prices[i / 2]))
            } else {
                WorkerEvent::PauseElapsed
            },
    )
}

/// No event takes a worker out of the form that always holds of it.
pub proof fn lemma_step_keeps_well_formed(w: WorkerModel, event: WorkerEvent)
    requires
        well_formed(w),
    ensures
        well_formed(spec_step(w, event)),
        spec_step(w, event).kickoff == w.kickoff,
        spec_step(w, event).sample_count == w.sample_count,
{
}

/// No sample before the kickoff: a waiting worker goes on to sampling only on
/// a reading of the clock that is not before the kickoff, and any such
/// reading lets it go on, also one long past it.
pub proof fn lemma_sampling_waits_for_kickoff(w: WorkerModel, event: WorkerEvent)
    requires
        w.phase == WorkerPhase::AwaitingKickoff,
    ensures
        spec_step(w, event).window == w.window,
        spec_step(w, event).phase == WorkerPhase::Sampling || spec_step(w, event).phase
            == WorkerPhase::AwaitingKickoff,
        spec_step(w, event).phase == WorkerPhase::Sampling <==> (event matches WorkerEvent::Clock(
            now,
        ) && now >= w.kickoff),
{
}

/// A worker that is ready or has failed stays as it is.
pub proof fn lemma_settled_worker_stays(w: WorkerModel, event: WorkerEvent)
    requires
        w.phase == WorkerPhase::Ready || w.phase is Failed,
    ensures
        spec_step(w, event) == w,
{
}

/// One failed request ends the worker: while it samples, a request that
/// fails, or gives something that is no finite number, fails the worker and
/// adds nothing to its window.
pub proof fn lemma_bad_observation_fails_worker(w: WorkerModel, observed: Option<u64>)
    requires
        w.phase == WorkerPhase::Sampling,
        observed matches Some(price) ==> !spec_is_finite(price),
    ensures
        spec_step(w, WorkerEvent::Observation(observed)).phase == WorkerPhase::Failed(
            WorkerError::SamplerUnavailable,
        ),
        spec_step(w, WorkerEvent::Observation(observed)).window == w.window,
{
}

/// Part of an undisturbed sampling: the events for some further prices, as
/// long as these do not fill the window, leave a sampling worker sampling,
/// with those prices added to its window.
proof fn lemma_sampling_progress(w: WorkerModel, prices: Seq<u64>)
    requires
        well_formed(w),
        w.phase == WorkerPhase::Sampling,
        w.window.len() + prices.len() < w.sample_count,
        forall|i: int| 0 <= i < prices.len() ==> spec_is_finite(#[trigger] prices[i]),
    ensures
        spec_run(w, sampling_events(prices)) == (WorkerModel {
            window: w.window + prices,
            ..w
        }),
    decreases prices.len(),
{
    if prices.len() > 0 {
        let front = prices.drop_last();
        lemma_sampling_progress(w, front);
        lemma_last_sample(w, prices);
        assert((w.window + front).push(prices.last()) =~= w.window + prices);
    }
}

/// The events for some prices are the events for all but the last of them,
/// then the observation of the last and the end of its interval.
proof fn lemma_last_sample(w: WorkerModel, prices: Seq<u64>)
    requires
        prices.len() > 0,
    ensures
        spec_run(w, sampling_events(prices)) == spec_step(
            spec_step(
                spec_run(w, sampling_events(prices.drop_last())),
                WorkerEvent::Observation(Some(prices.last())),
            ),
            WorkerEvent::PauseElapsed,
        ),
{
    let events = sampling_events(prices);
    let front = sampling_events(prices.drop_last());
    assert(events.drop_last().drop_last() =~= front);
    assert(spec_run(w, events.drop_last()) == spec_step(
        spec_run(w, events.drop_last().drop_last()),
        events.drop_last().last(),
    ));
}

/// Exactly as many samples as asked for: a worker that has seen the kickoff
/// pass and then gets one finite price for each sample it is to take, with
/// the interval after each, is ready, and its window holds exactly those
/// prices in the order they came.
pub proof fn lemma_full_sampling_makes_ready(w: WorkerModel, prices: Seq<u64>)
    requires
        well_formed(w),
        w.phase == WorkerPhase::Sampling,
        w.window.len() == 0,
        prices.len() == w.sample_count,
        forall|i: int| 0 <= i < prices.len() ==> spec_is_finite(#[trigger] prices[i]),
    ensures
        spec_run(w, sampling_events(prices)) == (WorkerModel {
            window: prices,
            phase: WorkerPhase::Ready,
            ..w
        }),
{
    let front = prices.drop_last();
    lemma_sampling_progress(w, front);
    lemma_last_sample(w, prices);
    assert(front.push(prices.last()) =~= prices);
}

} // verus!
