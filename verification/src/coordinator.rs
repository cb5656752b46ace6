//! The coordinator's side of a run: each worker's report is examined, and the
//! mean in it joins the verified results only if everything about the report
//! holds. The first report that fails ends the run for good. The means are
//! handed out for the consensus value only when every worker has been
//! verified.
//!
//! Starting the workers, waiting for them and reading their output is the
//! caller's part, and so is parsing the text of a mean and the arithmetic of
//! the consensus value.

use crate::attestation::{authenticate, is_authentic, spec_authenticate, Attestation, WorkerResult};
use crate::error::AggregationError;
use crate::payload::{spec_split, split};
use vstd::prelude::*;

verus! {

/// What the caller knows of one worker once it has ended.
#[derive(Clone, Debug, PartialEq, Eq)]
pub struct WorkerReport {
    /// Whether the worker was started and left with status zero.
    pub exit_ok: bool,
    /// Everything the worker wrote to its output.
    pub output: Vec<u8>,
    /// The bit pattern of the number that the text after the signature parses
    /// to; `None` if there is no such text or it is no number.
    pub parsed_mean: Option<u64>,
}

/// A report as mathematical values.
pub struct ReportModel {
    pub exit_ok: bool,
    pub output: Seq<u8>,
    pub parsed_mean: Option<u64>,
}

impl View for WorkerReport {
    type V = ReportModel;

    open spec fn view(&self) -> ReportModel {
        ReportModel { exit_ok: self.exit_ok, output: self.output@, parsed_mean: self.parsed_mean }
    }
}

/// What a report comes to. The checks count in this order: the worker's exit,
/// the length of its output, then mean, key and signature.
pub open spec fn spec_examine(report: ReportModel) -> Result<Attestation, AggregationError> {
    if !report.exit_ok {
        Err(AggregationError::WorkerProcessFailure)
    } else {
        match spec_split(report.output) {
            None => Err(AggregationError::PayloadReadError),
            Some(parts) => spec_authenticate(parts, report.parsed_mean),
        }
    }
}

/// Examines one report: the worker's result if all of it holds, else the
/// first thing that does not.
pub fn examine(report: &WorkerReport) -> (outcome: Result<WorkerResult, AggregationError>)
    ensures
        outcome matches Ok(w) ==> spec_examine(report@) == Ok::<Attestation, AggregationError>(w@)
            && is_authentic(w@),
        outcome matches Err(e) ==> spec_examine(report@) == Err::<Attestation, AggregationError>(
            e,
        ),
{
    if !report.exit_ok {
        return Err(AggregationError::WorkerProcessFailure);
    }
    match split(report.output.as_slice()) {
        Err(e) => Err(e),
        Ok(payload) => authenticate(payload, report.parsed_mean),
    }
}

/// Where a run stands.
#[derive(Clone, Copy, Debug, PartialEq, Eq, Structural)]
pub enum RunStatus {
    /// Some workers have not been verified yet, and none has failed.
    Collecting,
    /// Every worker has been verified.
    Complete,
    /// The run has failed. This is final.
    Failed(AggregationError),
}

/// A run as mathematical values.
pub struct RunModel {
    pub worker_count: u32,
    pub verified: Seq<Attestation>,
    pub failure: Option<AggregationError>,
    pub consensus: Option<u64>,
}

/// One run: how many workers it has, the results verified so far in the order
/// they came, the failure that ended it if one did, and the consensus value
/// once there is one.
pub struct AggregationRun {
    worker_count: u32,
    verified: Vec<WorkerResult>,
    failure: Option<AggregationError>,
    consensus: Option<u64>,
}

impl View for AggregationRun {
    type V = RunModel;

    closed spec fn view(&self) -> RunModel {
        RunModel {
            worker_count: self.worker_count,
            verified: attestations(self.verified@),
            failure: self.failure,
            consensus: self.consensus,
        }
    }
}

/// The views of a sequence of results.
pub open spec fn attestations(results: Seq<WorkerResult>) -> Seq<Attestation> {
    Seq::new(results.len(), |i: int| results[i]@)
}

/// What always holds of a run: it has at least one worker, never more results
/// than workers, authentic results only, and a consensus value only if every
/// worker has been verified and nothing has failed.
pub open spec fn well_formed(run: RunModel) -> bool {
    &&& run.worker_count >= 1
    &&& run.verified.len() <= run.worker_count
    &&& forall|i: int| 0 <= i < run.verified.len() ==> is_authentic(#[trigger] run.verified[i])
    &&& run.consensus is Some ==> run.failure is None && run.verified.len() == run.worker_count
}

/// A run as it starts.
pub open spec fn initial(worker_count: u32) -> RunModel {
    RunModel { worker_count, verified: Seq::empty(), failure: None, consensus: None }
}

/// Where a run stands.
pub open spec fn spec_status(run: RunModel) -> RunStatus {
    match run.failure {
        Some(e) => RunStatus::Failed(e),
        None => if run.verified.len() == run.worker_count {
            RunStatus::Complete
        } else {
            RunStatus::Collecting
        },
    }
}

/// The run after one worker's outcome. While it collects, a result joins the
/// verified ones and an error fails the run. A run that is complete or has
/// failed stays as it is.
pub open spec fn spec_record(run: RunModel, outcome: Result<Attestation, AggregationError>) -> RunModel {
    if spec_status(run) != RunStatus::Collecting {
        run
    } else {
        match outcome {
            Ok(a) => RunModel { verified: run.verified.push(a), ..run },
            Err(e) => RunModel { failure: Some(e), ..run },
        }
    }
}

/// The run after one worker's report.
pub open spec fn spec_submit(run: RunModel, report: ReportModel) -> RunModel {
    spec_record(run, spec_examine(report))
}

/// The run after a sequence of reports, taken in order.
pub open spec fn spec_submit_all(run: RunModel, reports: Seq<ReportModel>) -> RunModel
    decreases reports.len(),
{
    if reports.len() == 0 {
        run
    } else {
        spec_submit(spec_submit_all(run, reports.drop_last()), reports.last())
    }
}

/// The means of a complete run, in the order the workers were verified.
pub open spec fn spec_means(run: RunModel) -> Option<Seq<u64>> {
    if spec_status(run) == RunStatus::Complete {
        Some(Seq::new(run.verified.len(), |i: int| run.verified[i].mean))
    } else {
        None
    }
}

/// The run with its consensus value set, if it is complete; else unchanged.
pub open spec fn spec_conclude(run: RunModel, consensus: u64) -> RunModel {
    if spec_status(run) == RunStatus::Complete {
        RunModel { consensus: Some(consensus), ..run }
    } else {
        run
    }
}

/// The views of a slice of reports.
pub open spec fn report_models(reports: Seq<WorkerReport>) -> Seq<ReportModel> {
    Seq::new(reports.len(), |i: int| reports[i]@)
}

impl AggregationRun {
    #[verifier::type_invariant]
    spec fn inv(&self) -> bool {
        well_formed(self@)
    }

    /// A run of `worker_count` workers. A count of zero is refused: there
    /// would be nothing to divide by.
    pub fn new(worker_count: u32) -> (made: Result<AggregationRun, AggregationError>)
        ensures
            worker_count == 0 <==> made is Err,
            made matches Ok(run) ==> run@ == initial(worker_count) && well_formed(run@),
            made matches Err(e) ==> e == AggregationError::NoWorkers,
    {
        if worker_count == 0 {
            return Err(AggregationError::NoWorkers);
        }
        let verified: Vec<WorkerResult> = Vec::new();
        assert(attestations(verified@) =~= Seq::empty());
        Ok(AggregationRun { worker_count, verified, failure: None, consensus: None })
    }

    /// Where the run stands.
    pub fn status(&self) -> (status: RunStatus)
        ensures
            status == spec_status(self@),
            well_formed(self@),
    {
        proof {
            use_type_invariant(self);
        }
        match self.failure {
            Some(e) => RunStatus::Failed(e),
            None => if self.verified.len() == self.worker_count as usize {
                RunStatus::Complete
            } else {
                RunStatus::Collecting
            },
        }
    }

    /// How many workers the run has.
    pub fn worker_count(&self) -> (count: u32)
        ensures
            count == self@.worker_count,
            count >= 1,
    {
        proof {
            use_type_invariant(self);
        }
        self.worker_count
    }

    /// How many workers have been verified.
    pub fn verified_count(&self) -> (count: usize)
        ensures
            count == self@.verified.len(),
            count <= self@.worker_count,
    {
        proof {
            use_type_invariant(self);
        }
        self.verified.len()
    }

    /// The consensus value, once the run has been concluded.
    pub fn consensus(&self) -> (consensus: Option<u64>)
        ensures
            consensus == self@.consensus,
            consensus is Some ==> spec_status(self@) == RunStatus::Complete,
    {
        proof {
            use_type_invariant(self);
        }
        self.consensus
    }

    /// Takes in one worker's report: the run after it.
    pub fn submit(self, report: &WorkerReport) -> (next: AggregationRun)
        ensures
            next@ == spec_submit(self@, report@),
            well_formed(next@),
    {
        proof {
            use_type_invariant(&self);
        }
        match self.status() {
            RunStatus::Collecting => {},
            _ => {
                return self;
            },
        }
        let ghost before: RunModel = self@;
        let AggregationRun { worker_count, verified, failure, consensus } = self;
        let mut verified: Vec<WorkerResult> = verified;
        match examine(report) {
            Ok(result) => {
                let ghost a: Attestation = result@;
                verified.push(result);
                assert(attestations(verified@) =~= before.verified.push(a));
                let next: AggregationRun = AggregationRun {
                    worker_count,
                    verified,
                    failure,
                    consensus,
                };
                next
            },
            Err(e) => {
                AggregationRun { worker_count, verified, failure: Some(e), consensus }
            },
        }
    }

    /// Takes in reports in order, and stops at the first that fails the run.
    pub fn submit_all(self, reports: &[WorkerReport]) -> (next: AggregationRun)
        ensures
            next@ == spec_submit_all(self@, report_models(reports@)),
            well_formed(next@),
    {
        proof {
            use_type_invariant(&self);
        }
        let ghost start: RunModel = self@;
        let ghost all: Seq<ReportModel> = report_models(reports@);
        let mut run: AggregationRun = self;
        let mut i: usize = 0;
        while i < reports.len()
            invariant
                i <= reports@.len(),
                start == self@,
                all == report_models(reports@),
                run@ == spec_submit_all(start, all.take(i as int)),
                well_formed(run@),
            decreases reports@.len() - i,
        {
            proof {
                let upto = all.take(i as int + 1);
                assert(upto.drop_last() =~= all.take(i as int));
            }
            run = run.submit(&reports[i]);
            i += 1;
            match run.status() {
                RunStatus::Failed(_) => {
                    proof {
                        assert(all.take(i as int) + all.skip(i as int) =~= all);
                        lemma_submit_all_concat(start, all.take(i as int), all.skip(i as int));
                        lemma_settled_run_absorbs(run@, all.skip(i as int));
                    }
                    return run;
                },
                _ => {},
            }
        }
        assert(all.take(i as int) =~= all);
        run
    }

    /// The means for the consensus value, in the order the workers were
    /// verified: handed out only when every worker has been verified.
    pub fn means(&self) -> (means: Option<Vec<u64>>)
        ensures
            means is Some <==> spec_status(self@) == RunStatus::Complete,
            means matches Some(m) ==> Some(m@) == spec_means(self@) && m@.len()
                == self@.worker_count,
            means is None ==> spec_means(self@) is None,
    {
        proof {
            use_type_invariant(self);
        }
        match self.status() {
            RunStatus::Complete => {},
            _ => {
                return None;
            },
        }
        let mut out: Vec<u64> = Vec::new();
        let mut i: usize = 0;
        while i < self.verified.len()
            invariant
                i <= self.verified@.len(),
                out@.len() == i,
                forall|j: int| 0 <= j < i ==> out@[j] == self.verified@[j].mean,
            decreases self.verified@.len() - i,
        {
            out.push(self.verified[i].mean);
            i += 1;
        }
        Some(out)
    }

    /// Records the consensus value that the caller computed from
    /// [`AggregationRun::means`]. A run that is not complete stays as it is.
    pub fn conclude(self, consensus: u64) -> (next: AggregationRun)
        ensures
            next@ == spec_conclude(self@, consensus),
            well_formed(next@),
    {
        proof {
            use_type_invariant(&self);
        }
        match self.status() {
            RunStatus::Complete => {},
            _ => {
                return self;
            },
        }
        let AggregationRun { worker_count, verified, failure, consensus: _ } = self;
        AggregationRun { worker_count, verified, failure, consensus: Some(consensus) }
    }
}

/// What a whole run comes to, from the number of workers and their reports
/// in order: the means of all workers, or the error that ended the run. A
/// worker without a report was never brought to its end, which counts as a
/// failed process.
pub open spec fn spec_collect_means(worker_count: u32, reports: Seq<ReportModel>) -> Result<
    Seq<u64>,
    AggregationError,
> {
    if worker_count == 0 {
        Err(AggregationError::NoWorkers)
    } else {
        let run = spec_submit_all(initial(worker_count), reports);
        match spec_status(run) {
            RunStatus::Complete => Ok(spec_means(run)->Some_0),
            RunStatus::Failed(e) => Err(e),
            RunStatus::Collecting => Err(AggregationError::WorkerProcessFailure),
        }
    }
}

/// Runs a whole aggregation over the reports of the workers, in order: the
/// means to take the consensus value from, or the error that ended the run.
pub fn collect_means(worker_count: u32, reports: &[WorkerReport]) -> (collected: Result<
    Vec<u64>,
    AggregationError,
>)
    ensures
        collected matches Ok(means) ==> spec_collect_means(worker_count, report_models(reports@))
            == Ok::<Seq<u64>, AggregationError>(means@),
        collected matches Err(e) ==> spec_collect_means(worker_count, report_models(reports@))
            == Err::<Seq<u64>, AggregationError>(e),
{
    let run: AggregationRun = match AggregationRun::new(worker_count) {
        Ok(run) => run,
        Err(e) => {
            return Err(e);
        },
    };
    let run: AggregationRun = run.submit_all(reports);
    match run.status() {
        RunStatus::Failed(e) => Err(e),
        RunStatus::Collecting => Err(AggregationError::WorkerProcessFailure),
        RunStatus::Complete => match run.means() {
            Some(means) => Ok(means),
            None => Err(AggregationError::WorkerProcessFailure),
        },
    }
}

/// No report takes a run out of the form that always holds of it: whatever
/// a report comes to, the verified results stay authentic and no more than
/// there are workers, and a failed run has no consensus value.
pub proof fn lemma_submit_keeps_well_formed(run: RunModel, report: ReportModel)
    requires
        well_formed(run),
    ensures
        well_formed(spec_submit(run, report)),
        spec_submit(run, report).worker_count == run.worker_count,
        spec_status(spec_submit(run, report)) is Failed ==> spec_submit(run, report).consensus
            is None,
{
    if spec_examine(report) is Ok {
        let parts = spec_split(report.output)->Some_0;
        crate::attestation::lemma_accepted_iff_authentic(parts, report.parsed_mean->Some_0);
    }
}

/// A consensus value is recorded only for a complete run, and recording one
/// leaves the verified results as they are.
pub proof fn lemma_conclude_needs_complete_run(run: RunModel, consensus: u64)
    requires
        well_formed(run),
    ensures
        well_formed(spec_conclude(run, consensus)),
        spec_conclude(run, consensus).verified == run.verified,
        spec_status(run) != RunStatus::Complete ==> spec_conclude(run, consensus) == run,
        spec_status(run) == RunStatus::Complete ==> spec_conclude(run, consensus).consensus
            == Some(consensus),
{
}

/// A run that is complete or has failed takes no notice of further reports.
pub proof fn lemma_settled_run_absorbs(run: RunModel, reports: Seq<ReportModel>)
    requires
        spec_status(run) != RunStatus::Collecting,
    ensures
        spec_submit_all(run, reports) == run,
    decreases reports.len(),
{
    if reports.len() > 0 {
        lemma_settled_run_absorbs(run, reports.drop_last());
    }
}

/// Taking in one sequence of reports and then another is taking in the two
/// joined.
pub proof fn lemma_submit_all_concat(run: RunModel, first: Seq<ReportModel>, rest: Seq<ReportModel>)
    ensures
        spec_submit_all(run, first + rest) == spec_submit_all(spec_submit_all(run, first), rest),
    decreases rest.len(),
{
    if rest.len() > 0 {
        lemma_submit_all_concat(run, first, rest.drop_last());
        assert((first + rest).drop_last() =~= first + rest.drop_last());
    }
}

/// While every report holds, the run collects: after reports that all hold,
/// no more of them than there are workers, the verified results are what the
/// reports came to, in order, and nothing has failed.
proof fn lemma_holding_reports_collect(worker_count: u32, reports: Seq<ReportModel>)
    requires
        worker_count >= 1,
        reports.len() <= worker_count,
        forall|i: int| 0 <= i < reports.len() ==> spec_examine(#[trigger] reports[i]) is Ok,
    ensures
        ({
            let run = spec_submit_all(initial(worker_count), reports);
            &&& run.worker_count == worker_count
            &&& run.failure is None
            &&& run.consensus is None
            &&& run.verified.len() == reports.len()
            &&& forall|i: int|
                0 <= i < reports.len() ==> #[trigger] run.verified[i] == spec_examine(
                    reports[i],
                )->Ok_0
        }),
    decreases reports.len(),
{
    if reports.len() > 0 {
        lemma_holding_reports_collect(worker_count, reports.drop_last());
    }
}

/// Unanimity gives the means: if there is a report for every worker and each
/// of them holds, the run yields one mean per worker, each the mean of that
/// worker's report, in order.
pub proof fn lemma_all_verified_yields_means(worker_count: u32, reports: Seq<ReportModel>)
    requires
        worker_count >= 1,
        reports.len() >= worker_count,
        forall|i: int| 0 <= i < worker_count ==> spec_examine(#[trigger] reports[i]) is Ok,
    ensures
        spec_collect_means(worker_count, reports) is Ok,
        spec_collect_means(worker_count, reports)->Ok_0.len() == worker_count,
        forall|i: int|
            0 <= i < worker_count ==> #[trigger] spec_collect_means(worker_count, reports)->Ok_0[i]
                == spec_examine(reports[i])->Ok_0.mean,
{
    let first = reports.take(worker_count as int);
    let rest = reports.skip(worker_count as int);
    assert(first + rest =~= reports);
    lemma_holding_reports_collect(worker_count, first);
    lemma_submit_all_concat(initial(worker_count), first, rest);
    lemma_settled_run_absorbs(spec_submit_all(initial(worker_count), first), rest);
}

/// One failure fails the run: if a worker's report does not hold and all
/// before it did, the run ends with that report's error, whatever the reports
/// after it say. No mean is handed out.
pub proof fn lemma_first_failure_fails_run(
    worker_count: u32,
    reports: Seq<ReportModel>,
    failing: int,
)
    requires
        0 <= failing < worker_count,
        failing < reports.len(),
        spec_examine(reports[failing]) is Err,
        forall|i: int| 0 <= i < failing ==> spec_examine(#[trigger] reports[i]) is Ok,
    ensures
        spec_collect_means(worker_count, reports) == Err::<Seq<u64>, AggregationError>(
            spec_examine(reports[failing])->Err_0,
        ),
{
    let first = reports.take(failing);
    let upto = reports.take(failing + 1);
    let rest = reports.skip(failing + 1);
    assert(upto + rest =~= reports);
    assert(upto.drop_last() =~= first);
    lemma_holding_reports_collect(worker_count, first);
    lemma_submit_all_concat(initial(worker_count), upto, rest);
    lemma_settled_run_absorbs(spec_submit_all(initial(worker_count), upto), rest);
}

/// Too few reports fail the run: if every report holds but there are fewer
/// of them than workers, the run ends as a failed process.
pub proof fn lemma_missing_reports_fail_run(worker_count: u32, reports: Seq<ReportModel>)
    requires
        reports.len() < worker_count,
        forall|i: int| 0 <= i < reports.len() ==> spec_examine(#[trigger] reports[i]) is Ok,
    ensures
        spec_collect_means(worker_count, reports) == Err::<Seq<u64>, AggregationError>(
            AggregationError::WorkerProcessFailure,
        ),
{
    lemma_holding_reports_collect(worker_count, reports);
}

/// The report of each of the first `upto` workers holds, in a run that
/// yields means.
proof fn lemma_means_need_holding_prefix(worker_count: u32, reports: Seq<ReportModel>, upto: int)
    requires
        spec_collect_means(worker_count, reports) is Ok,
        0 <= upto <= worker_count,
        upto <= reports.len(),
    ensures
        forall|i: int| 0 <= i < upto ==> spec_examine(#[trigger] reports[i]) is Ok,
    decreases upto,
{
    if upto > 0 {
        lemma_means_need_holding_prefix(worker_count, reports, upto - 1);
        if spec_examine(reports[upto - 1]) is Err {
            lemma_first_failure_fails_run(worker_count, reports, upto - 1);
        }
    }
}

/// Means are handed out only on unanimity: if the run yields means, there is
/// at least one worker, there was a report for every worker, and every one of
/// them held.
pub proof fn lemma_means_need_all_verified(worker_count: u32, reports: Seq<ReportModel>)
    requires
        spec_collect_means(worker_count, reports) is Ok,
    ensures
        worker_count >= 1,
        reports.len() >= worker_count,
        forall|i: int| 0 <= i < worker_count ==> spec_examine(#[trigger] reports[i]) is Ok,
{
    if reports.len() < worker_count {
        lemma_means_need_holding_prefix(worker_count, reports, reports.len() as int);
        lemma_missing_reports_fail_run(worker_count, reports);
    } else {
        lemma_means_need_holding_prefix(worker_count, reports, worker_count as int);
    }
}

/// Every mean that a run hands out is attested: it is finite, and it came
/// with a key and a signature that verifies for it.
pub proof fn lemma_means_are_attested(worker_count: u32, reports: Seq<ReportModel>, i: int)
    requires
        spec_collect_means(worker_count, reports) is Ok,
        0 <= i < worker_count,
    ensures
        i < reports.len(),
        spec_examine(reports[i]) is Ok,
        is_authentic(spec_examine(reports[i])->Ok_0),
        spec_collect_means(worker_count, reports)->Ok_0[i] == spec_examine(reports[i])->Ok_0.mean,
{
    lemma_means_need_all_verified(worker_count, reports);
    lemma_all_verified_yields_means(worker_count, reports);
    let report = reports[i];
    let parts = spec_split(report.output)->Some_0;
    crate::attestation::lemma_accepted_iff_authentic(parts, report.parsed_mean->Some_0);
}

} // verus!

