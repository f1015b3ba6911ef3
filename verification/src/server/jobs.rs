//! The proving server's bookkeeping: which nullifiers have a proof cached,
//! which were queued under which job id, which job runs now, and the next id.
use crate::keyed_list::KeyedList;
use crate::server::cached_proof::{Proof, ProofResult};
use crate::server::error::ServerError;
use crate::u256::U256;
use vstd::prelude::*;

verus! {

/// The registry as a mathematical value.
pub struct JobsView {
    /// Finished jobs by nullifier: the proof, or what went wrong.
    pub proofs: Map<U256, ProofResult>,
    /// The job id under which each nullifier was queued.
    pub jobs: Map<U256, usize>,
    /// The job being proved now, if any.
    pub current: Option<usize>,
    /// The id the next queued job gets.
    pub next: usize,
}

/// What to do with a request to prove a nullifier.
#[derive(Debug, PartialEq, Eq, Structural)]
pub enum SubmitPlan {
    /// A proof for it is already cached: nothing to do.
    AlreadyProved,
    /// It waits in the queue behind or at the running job: nothing to do.
    AlreadyQueued,
    /// Queue a new job with this id.
    Enqueue { job_id: usize },
}

/// How far a queued job is from the running one: `job_id - current` (zero if
/// the job is older), or -1 when no job runs.
pub open spec fn queue_position(job_id: usize, current: Option<usize>) -> isize {
    match current {
        Some(c) => (if job_id >= c { (job_id - c) as usize } else { 0usize }) as isize,
        None => -1isize,
    }
}

/// The answer to a lookup of `n`, given whether its cached proof has expired.
pub open spec fn lookup_answer(s: JobsView, n: U256, expired: bool) -> Result<Proof, ServerError> {
    if s.proofs.contains_key(n) {
        match s.proofs[n] {
            Ok(p) => if expired {
                Err(ServerError::NotFound("proof"))
            } else {
                Ok(p)
            },
            Err(m) => Err(ServerError::Unexpected(m)),
        }
    } else if s.jobs.contains_key(n) {
        Err(ServerError::InQueue(queue_position(s.jobs[n], s.current)))
    } else {
        Err(ServerError::NotFound("proof"))
    }
}

/// The registry after a lookup of `n`: an expired proof is dropped from the cache.
pub open spec fn after_lookup(s: JobsView, n: U256, expired: bool) -> JobsView {
    if s.proofs.contains_key(n) && s.proofs[n] is Ok && expired {
        JobsView { proofs: s.proofs.remove(n), ..s }
    } else {
        s
    }
}

/// What a request to prove `n` leads to.
pub open spec fn submit_plan(s: JobsView, n: U256) -> SubmitPlan {
    if s.jobs.contains_key(n) && s.proofs.contains_key(n) {
        SubmitPlan::AlreadyProved
    } else if s.jobs.contains_key(n) && s.current is Some && s.current->0 <= s.jobs[n] {
        SubmitPlan::AlreadyQueued
    } else {
        SubmitPlan::Enqueue { job_id: s.next }
    }
}

/// The registry after planning a request for `n`: a job mapping that the
/// running job has already passed without leaving a proof is forgotten.
pub open spec fn after_plan(s: JobsView, n: U256) -> JobsView {
    if s.jobs.contains_key(n) && !s.proofs.contains_key(n) && s.current is Some && s.current->0
        > s.jobs[n] {
        JobsView { jobs: s.jobs.remove(n), ..s }
    } else {
        s
    }
}

/// The registry once the job for `n` was handed to the prover: `n` maps to
/// the next id, which is then used up.
pub open spec fn after_enqueue(s: JobsView, n: U256) -> JobsView {
    JobsView { jobs: s.jobs.insert(n, s.next), next: (s.next + 1) as usize, ..s }
}

/// The registry after a `POST /proof` for `n`: untouched when the request
/// is refused (`admitted` false); otherwise planned, and the job recorded
/// only when the plan was to queue one and handing it to the prover (`sent`) worked.
pub open spec fn after_proof_post(s: JobsView, n: U256, admitted: bool, sent: bool) -> JobsView {
    if !admitted {
        s
    } else if submit_plan(s, n) is Enqueue && sent {
        after_enqueue(after_plan(s, n), n)
    } else {
        after_plan(s, n)
    }
}

/// Every queued job id is below the next one to hand out.
pub open spec fn ids_below_next(s: JobsView) -> bool {
    forall|k: U256| #[trigger] s.jobs.contains_key(k) ==> s.jobs[k] < s.next
}

/// Bookkeeping of the proving server's jobs.
pub struct ProofJobs {
    proof_cache: KeyedList<ProofResult>,
    nullifier_to_job_id: KeyedList<usize>,
    current_processing_job_id: Option<usize>,
    next_job_id: usize,
}

impl View for ProofJobs {
    type V = JobsView;

    closed spec fn view(&self) -> JobsView {
        JobsView {
            proofs: self.proof_cache@,
            jobs: self.nullifier_to_job_id@,
            current: self.current_processing_job_id,
            next: self.next_job_id,
        }
    }
}

impl ProofJobs {
    /// The lists are well formed and every job id handed out is below the next one.
    pub closed spec fn wf(&self) -> bool {
        &&& self.proof_cache.wf()
        &&& self.nullifier_to_job_id.wf()
        &&& ids_below_next(self@)
    }

    /// In a well-formed registry every queued job id is below the next one.
    pub proof fn lemma_ids_below_next(&self)
        requires
            self.wf(),
        ensures
            ids_below_next(self@),
    {
    }

    /// An empty registry: nothing cached, nothing queued, no job running, ids from 0.
    pub fn new() -> (r: ProofJobs)
        ensures
            r.wf(),
            ids_below_next(r@),
            r@.proofs == Map::<U256, ProofResult>::empty(),
            r@.jobs == Map::<U256, usize>::empty(),
            r@.current is None,
            r@.next == 0,
    {
        ProofJobs {
            proof_cache: KeyedList::new(),
            nullifier_to_job_id: KeyedList::new(),
            current_processing_job_id: None,
            next_job_id: 0,
        }
    }

    /// The id the next queued job gets.
    pub fn next_job_id(&self) -> (r: usize)
        ensures
            r == self@.next,
    {
        self.next_job_id
    }

    /// The job being proved now, if any.
    pub fn current_job(&self) -> (r: Option<usize>)
        ensures
            r == self@.current,
    {
        self.current_processing_job_id
    }

    /// The cached outcome for a nullifier, if any.
    pub fn cached_proof(&self, nullifier: &U256) -> (r: Option<&ProofResult>)
        requires
            self.wf(),
        ensures
            match r {
                Some(p) => self@.proofs.contains_key(*nullifier) && self@.proofs[*nullifier] == *p,
                None => !self@.proofs.contains_key(*nullifier),
            },
    {
        self.proof_cache.get(nullifier)
    }

    /// The job id a nullifier was queued under, if any.
    pub fn job_of(&self, nullifier: &U256) -> (r: Option<usize>)
        requires
            self.wf(),
        ensures
            match r {
                Some(j) => self@.jobs.contains_key(*nullifier) && self@.jobs[*nullifier] == j,
                None => !self@.jobs.contains_key(*nullifier),
            },
    {
        match self.nullifier_to_job_id.get(nullifier) {
            Some(j) => Some(*j),
            None => None,
        }
    }

    /// Records which job is being proved now.
    pub fn set_current_job(&mut self, job_id: Option<usize>)
        requires
            old(self).wf(),
        ensures
            final(self).wf(),
            ids_below_next(final(self)@),
            final(self)@ == (JobsView { current: job_id, ..old(self)@ }),
    {
        self.current_processing_job_id = job_id;
    }

    /// Caches the outcome of proving a nullifier.
    pub fn store_proof(&mut self, nullifier: U256, result: ProofResult)
        requires
            old(self).wf(),
        ensures
            final(self).wf(),
            ids_below_next(final(self)@),
            final(self)@ == (JobsView { proofs: old(self)@.proofs.insert(nullifier, result), ..old(self)@ }),
    {
        self.proof_cache.insert(nullifier, result);
    }

    /// Answers a request for the proof of a nullifier: the cached proof unless
    /// it has `expired` (then it is dropped and not found), the cached failure,
    /// the queue position when a job is pending, or not found.
    pub fn lookup(&mut self, nullifier: &U256, expired: bool) -> (r: Result<Proof, ServerError>)
        requires
            old(self).wf(),
        ensures
            final(self).wf(),
            ids_below_next(final(self)@),
            final(self)@ == after_lookup(old(self)@, *nullifier, expired),
            r == lookup_answer(old(self)@, *nullifier, expired),
    {
        match self.proof_cache.get(nullifier) {
            Some(Ok(proof)) => {
                if expired {
                    self.proof_cache.remove(nullifier);
                    Err(ServerError::NotFound("proof"))
                } else {
                    Ok(*proof)
                }
            },
            Some(Err(message)) => Err(ServerError::Unexpected(message.clone())),
            None => match self.nullifier_to_job_id.get(nullifier) {
                Some(job_id) => {
                    let position: isize = match self.current_processing_job_id {
                        Some(current) => job_id.saturating_sub(current) as isize,
                        None => -1isize,
                    };
                    Err(ServerError::InQueue(position))
                },
                None => Err(ServerError::NotFound("proof")),
            },
        }
    }

    /// Decides what to do with a request to prove a nullifier. A nullifier
    /// already proved, or queued at or after the running job, needs nothing;
    /// otherwise a job is to be queued under the next id, and a stale mapping
    /// left by a job that ran without caching a proof is dropped first.
    pub fn plan_submission(&mut self, nullifier: &U256) -> (r: SubmitPlan)
        requires
            old(self).wf(),
        ensures
            final(self).wf(),
            ids_below_next(final(self)@),
            final(self)@ == after_plan(old(self)@, *nullifier),
            r == submit_plan(old(self)@, *nullifier),
    {
        match self.nullifier_to_job_id.get(nullifier) {
            Some(user_job_id) => {
                let user_job_id = *user_job_id;
                if self.proof_cache.contains_key(nullifier) {
                    return SubmitPlan::AlreadyProved;
                }
                match self.current_processing_job_id {
                    Some(running_job_id) => {
                        if running_job_id <= user_job_id {
                            return SubmitPlan::AlreadyQueued;
                        } else {
                            self.nullifier_to_job_id.remove(nullifier);
                        }
                    },
                    None => {},
                }
            },
            None => {},
        }
        SubmitPlan::Enqueue { job_id: self.next_job_id }
    }

    /// Ends a submission planned by `plan_submission`: when the plan was to
    /// queue a job, it is recorded if handing it to the prover worked
    /// (`sent` is `Ok`), and the failure is answered otherwise; a plan that
    /// needed no job changes nothing.
    pub fn finish_submission(&mut self, nullifier: U256, plan: SubmitPlan, sent: Result<(), String>) -> (r:
        Result<(), ServerError>)
        requires
            old(self).wf(),
            plan is Enqueue ==> old(self)@.next < usize::MAX,
        ensures
            final(self).wf(),
            ids_below_next(final(self)@),
            match plan {
                SubmitPlan::Enqueue { .. } => match sent {
                    Ok(_) => r is Ok && final(self)@ == after_enqueue(old(self)@, nullifier),
                    Err(e) => r == Err::<(), ServerError>(ServerError::Unexpected(e)) && final(self)@
                        == old(self)@,
                },
                _ => r is Ok && final(self)@ == old(self)@,
            },
    {
        match plan {
            SubmitPlan::Enqueue { .. } => match sent {
                Ok(()) => {
                    self.record_enqueued(nullifier);
                    Ok(())
                },
                Err(e) => Err(ServerError::Unexpected(e)),
            },
            _ => Ok(()),
        }
    }

    /// Records that the job for a nullifier was handed to the prover under
    /// the next id, and returns that id.
    pub fn record_enqueued(&mut self, nullifier: U256) -> (r: usize)
        requires
            old(self).wf(),
            old(self)@.next < usize::MAX,
        ensures
            final(self).wf(),
            ids_below_next(final(self)@),
            final(self)@ == after_enqueue(old(self)@, nullifier),
            r == old(self)@.next,
    {
        let job_id = self.next_job_id;
        self.nullifier_to_job_id.insert(nullifier, job_id);
        self.next_job_id = job_id + 1;
        job_id
    }
}

/// A cached proof is served back as long as it has not expired.
pub proof fn law_stored_proof_is_served(s: JobsView, n: U256, p: Proof)
    ensures
        lookup_answer(JobsView { proofs: s.proofs.insert(n, Ok(p)), ..s }, n, false) == Ok::<
            Proof,
            ServerError,
        >(p),
{
}

/// An expired proof is answered as not found and dropped from the cache.
pub proof fn law_expired_proof_is_dropped(s: JobsView, n: U256, p: Proof)
    requires
        s.proofs.contains_key(n),
        s.proofs[n] == Ok::<Proof, String>(p),
    ensures
        lookup_answer(s, n, true) == Err::<Proof, ServerError>(ServerError::NotFound("proof")),
        !after_lookup(s, n, true).proofs.contains_key(n),
        after_lookup(s, n, true).jobs == s.jobs,
{
}

/// Once its job is queued, a nullifier without a cached proof is reported as
/// waiting in the queue, at its distance from the running job.
pub proof fn law_queued_nullifier_reports_position(s: JobsView, n: U256, expired: bool)
    requires
        !s.proofs.contains_key(n),
    ensures
        lookup_answer(after_enqueue(s, n), n, expired) == Err::<Proof, ServerError>(
            ServerError::InQueue(queue_position(s.next, s.current)),
        ),
{
}

/// Asking again for a nullifier whose job is at or after the running job
/// queues nothing and changes nothing.
pub proof fn law_queued_request_is_idempotent(s: JobsView, n: U256)
    requires
        s.jobs.contains_key(n),
        !s.proofs.contains_key(n),
        s.current is Some,
        s.current->0 <= s.jobs[n],
    ensures
        submit_plan(s, n) == SubmitPlan::AlreadyQueued,
        after_plan(s, n) == s,
{
}

/// A refused `POST /proof` leaves the registry as it was.
pub proof fn law_refused_request_changes_nothing(s: JobsView, n: U256, sent: bool)
    ensures
        after_proof_post(s, n, false, sent) == s,
{
}

/// A job is recorded only when it was handed to the prover: when that
/// failed, no id is used up and the nullifier is not mapped to a new job.
pub proof fn law_job_recorded_only_after_send(s: JobsView, n: U256)
    ensures
        after_proof_post(s, n, true, false) == after_plan(s, n),
        after_proof_post(s, n, true, false).next == s.next,
        submit_plan(s, n) is Enqueue ==> after_proof_post(s, n, true, true) == after_enqueue(after_plan(s, n), n),
{
}

/// `POST /proof` in its two steps: admitting a request leaves the registry
/// as `after_proof_post` with nothing sent, and recording the job once the
/// send worked gives `after_proof_post` with the send.
pub proof fn law_proof_post_is_admit_then_record(s: JobsView, n: U256)
    ensures
        after_proof_post(s, n, true, false) == after_plan(s, n),
        submit_plan(s, n) is Enqueue ==> after_enqueue(after_proof_post(s, n, true, false), n) == after_proof_post(
            s,
            n,
            true,
            true,
        ),
        !(submit_plan(s, n) is Enqueue) ==> after_proof_post(s, n, true, true) == after_proof_post(s, n, true, false),
{
}

/// A nullifier with no recorded job is planned as a new job under the next
/// id, whether or not a job is running, and planning it changes nothing.
pub proof fn law_unrecorded_nullifier_gets_the_next_id(s: JobsView, n: U256)
    requires
        !s.jobs.contains_key(n),
    ensures
        submit_plan(s, n) == (SubmitPlan::Enqueue { job_id: s.next }),
        after_plan(s, n) == s,
{
}

/// A recorded job without a proof is queued again under the next id when no
/// job is running (nothing tells that it is still waiting) and changes nothing.
pub proof fn law_recorded_job_with_no_runner_is_queued_again(s: JobsView, n: U256)
    requires
        s.jobs.contains_key(n),
        !s.proofs.contains_key(n),
        s.current is None,
    ensures
        submit_plan(s, n) == (SubmitPlan::Enqueue { job_id: s.next }),
        after_plan(s, n) == s,
{
}

/// A job that the running one has already passed without leaving a proof is
/// queued afresh under the next id, and its old mapping is forgotten; the
/// proofs, the running job and the next id stay as they were.
pub proof fn law_passed_job_is_queued_afresh(s: JobsView, n: U256, running: usize)
    requires
        s.jobs.contains_key(n),
        !s.proofs.contains_key(n),
        s.current == Some(running),
        running > s.jobs[n],
    ensures
        submit_plan(s, n) == (SubmitPlan::Enqueue { job_id: s.next }),
        after_plan(s, n).jobs == s.jobs.remove(n),
        after_plan(s, n).proofs == s.proofs,
        after_plan(s, n).current == s.current,
        after_plan(s, n).next == s.next,
{
}

/// Recording a job maps the nullifier to the id that was next, leaves every
/// other mapping, the proofs and the running job alone, and moves the next
/// id on by one.
pub proof fn law_recording_uses_the_next_id(s: JobsView, n: U256)
    requires
        s.next < usize::MAX,
    ensures
        after_enqueue(s, n).jobs.contains_key(n),
        after_enqueue(s, n).jobs[n] == s.next,
        forall|k: U256| k != n ==> (#[trigger] after_enqueue(s, n).jobs.contains_key(k) == s.jobs.contains_key(k)),
        forall|k: U256| k != n && s.jobs.contains_key(k) ==> #[trigger] after_enqueue(s, n).jobs[k] == s.jobs[k],
        after_enqueue(s, n).proofs == s.proofs,
        after_enqueue(s, n).current == s.current,
        after_enqueue(s, n).next == s.next + 1,
{
}

/// A cached failure is answered as `Unexpected` with its message, whether or
/// not the proof would have expired, and the registry stays as it was.
pub proof fn law_failed_job_is_reported(s: JobsView, n: U256, m: String, expired: bool)
    requires
        s.proofs.contains_key(n),
        s.proofs[n] == Err::<Proof, String>(m),
    ensures
        lookup_answer(s, n, expired) == Err::<Proof, ServerError>(ServerError::Unexpected(m)),
        after_lookup(s, n, expired) == s,
{
}

/// A cached proof that has not expired is served as it is, and the registry
/// stays as it was.
pub proof fn law_fresh_proof_is_served(s: JobsView, n: U256, p: Proof)
    requires
        s.proofs.contains_key(n),
        s.proofs[n] == Ok::<Proof, String>(p),
    ensures
        lookup_answer(s, n, false) == Ok::<Proof, ServerError>(p),
        after_lookup(s, n, false) == s,
{
}

/// With no cached outcome but a recorded job `j`, the answer is the queue
/// position: `j - c` when job `c` runs and `j >= c`, 0 when the running job
/// is past `j`, and -1 when none runs. The registry stays as it was.
pub proof fn law_waiting_job_reports_its_distance(s: JobsView, n: U256, expired: bool)
    requires
        !s.proofs.contains_key(n),
        s.jobs.contains_key(n),
    ensures
        s.current is None ==> lookup_answer(s, n, expired) == Err::<Proof, ServerError>(ServerError::InQueue(-1isize)),
        s.current is Some && s.current->0 <= s.jobs[n] ==> lookup_answer(s, n, expired) == Err::<Proof, ServerError>(
            ServerError::InQueue((s.jobs[n] - s.current->0) as isize),
        ),
        s.current is Some && s.current->0 > s.jobs[n] ==> lookup_answer(s, n, expired) == Err::<Proof, ServerError>(
            ServerError::InQueue(0isize),
        ),
        after_lookup(s, n, expired) == s,
{
}

/// A nullifier the registry knows nothing of is not found, and the registry
/// stays as it was.
pub proof fn law_unknown_nullifier_is_not_found(s: JobsView, n: U256, expired: bool)
    requires
        !s.proofs.contains_key(n),
        !s.jobs.contains_key(n),
    ensures
        lookup_answer(s, n, expired) == Err::<Proof, ServerError>(ServerError::NotFound("proof")),
        after_lookup(s, n, expired) == s,
{
}

/// A nullifier with a cached outcome is never queued again.
pub proof fn law_proved_nullifier_is_not_requeued(s: JobsView, n: U256)
    requires
        s.jobs.contains_key(n),
        s.proofs.contains_key(n),
    ensures
        submit_plan(s, n) == SubmitPlan::AlreadyProved,
        after_plan(s, n) == s,
{
}

/// Every job id is handed out once: queuing keeps all ids below the next
/// one, and the new job's id differs from every other queued job's.
pub proof fn law_job_ids_are_fresh(s: JobsView, n: U256)
    requires
        ids_below_next(s),
        s.next < usize::MAX,
    ensures
        ids_below_next(after_enqueue(s, n)),
        after_enqueue(s, n).next == s.next + 1,
        forall|k: U256|
            k != n && #[trigger] after_enqueue(s, n).jobs.contains_key(k) ==> after_enqueue(s, n).jobs[k]
                != after_enqueue(s, n).jobs[n],
{
}

} // verus!
