use worm_miner::contracts::beth::{Groth16Proof, RapidsnarkOutput};
use worm_miner::server::cached_proof::Proof;
use worm_miner::server::error::ServerError;
use worm_miner::server::jobs::{ProofJobs, SubmitPlan};
use worm_miner::u256::U256;

fn sample(tag: u64) -> Proof {
    let z = U256::from_u64(tag);
    Proof::new(
        U256::from_u64(100),
        RapidsnarkOutput { proof: Groth16Proof { pi_a: [z; 3], pi_b: [[z; 2]; 3], pi_c: [z; 3] } },
    )
}

fn submit(jobs: &mut ProofJobs, n: U256) -> SubmitPlan {
    let plan = jobs.plan_submission(&n);
    if let SubmitPlan::Enqueue { job_id } = plan {
        assert_eq!(jobs.record_enqueued(n), job_id);
    }
    plan
}

#[test]
fn new_registry_is_empty() {
    let mut jobs = ProofJobs::new();
    assert_eq!(jobs.next_job_id(), 0);
    assert_eq!(jobs.current_job(), None);
    assert!(matches!(jobs.lookup(&U256::from_u64(1), false), Err(ServerError::NotFound("proof"))));
}

#[test]
fn queued_nullifier_reports_its_position() {
    let mut jobs = ProofJobs::new();
    let n = U256::from_u64(7);
    assert_eq!(submit(&mut jobs, U256::from_u64(1)), SubmitPlan::Enqueue { job_id: 0 });
    assert_eq!(submit(&mut jobs, n), SubmitPlan::Enqueue { job_id: 1 });
    assert!(matches!(jobs.lookup(&n, false), Err(ServerError::InQueue(-1))));
    jobs.set_current_job(Some(0));
    assert!(matches!(jobs.lookup(&n, false), Err(ServerError::InQueue(1))));
    jobs.set_current_job(Some(1));
    assert!(matches!(jobs.lookup(&n, false), Err(ServerError::InQueue(0))));
    jobs.set_current_job(Some(5));
    assert!(matches!(jobs.lookup(&n, false), Err(ServerError::InQueue(0))));
}

#[test]
fn queued_request_is_not_queued_twice_while_pending() {
    let mut jobs = ProofJobs::new();
    let n = U256::from_u64(9);
    submit(&mut jobs, n);
    jobs.set_current_job(Some(0));
    assert_eq!(submit(&mut jobs, n), SubmitPlan::AlreadyQueued);
    assert_eq!(jobs.next_job_id(), 1);
    assert_eq!(jobs.job_of(&n), Some(0));
}

#[test]
fn request_without_running_job_is_queued_again() {
    let mut jobs = ProofJobs::new();
    let n = U256::from_u64(9);
    submit(&mut jobs, n);
    assert_eq!(submit(&mut jobs, n), SubmitPlan::Enqueue { job_id: 1 });
    assert_eq!(jobs.job_of(&n), Some(1));
}

#[test]
fn passed_job_without_proof_is_queued_afresh() {
    let mut jobs = ProofJobs::new();
    let n = U256::from_u64(3);
    submit(&mut jobs, n);
    submit(&mut jobs, U256::from_u64(4));
    jobs.set_current_job(Some(1));
    let plan = jobs.plan_submission(&n);
    assert_eq!(plan, SubmitPlan::Enqueue { job_id: 2 });
    assert_eq!(jobs.job_of(&n), None);
    assert_eq!(jobs.record_enqueued(n), 2);
    assert_eq!(jobs.job_of(&n), Some(2));
}

#[test]
fn stored_proof_is_served_until_it_expires() {
    let mut jobs = ProofJobs::new();
    let n = U256::from_u64(11);
    submit(&mut jobs, n);
    jobs.store_proof(n, Ok(sample(5)));
    assert_eq!(submit(&mut jobs, n), SubmitPlan::AlreadyProved);
    let served = jobs.lookup(&n, false).unwrap();
    assert_eq!(served.rapidsnark_output.proof.pi_a[0], U256::from_u64(5));
    assert!(matches!(jobs.lookup(&n, true), Err(ServerError::NotFound("proof"))));
    assert!(jobs.cached_proof(&n).is_none());
    assert!(matches!(jobs.lookup(&n, false), Err(ServerError::InQueue(-1))));
}

#[test]
fn failed_job_is_reported_as_unexpected() {
    let mut jobs = ProofJobs::new();
    let n = U256::from_u64(12);
    jobs.store_proof(n, Err("witness failed".to_string()));
    match jobs.lookup(&n, true) {
        Err(ServerError::Unexpected(m)) => assert_eq!(m, "witness failed"),
        _ => panic!("expected the stored failure"),
    }
    assert!(jobs.cached_proof(&n).is_some());
}

#[test]
fn storing_again_replaces_the_outcome() {
    let mut jobs = ProofJobs::new();
    let n = U256::from_u64(13);
    jobs.store_proof(n, Err("x".to_string()));
    jobs.store_proof(n, Ok(sample(8)));
    assert_eq!(jobs.lookup(&n, false).unwrap().rapidsnark_output.proof.pi_c[2], U256::from_u64(8));
}

#[test]
fn job_is_recorded_only_once_sent() {
    let mut jobs = ProofJobs::new();
    let n = U256::from_u64(3);
    let plan = jobs.plan_submission(&n);
    assert_eq!(plan, SubmitPlan::Enqueue { job_id: 0 });
    match jobs.finish_submission(n, plan, Err("channel closed".to_string())) {
        Err(ServerError::Unexpected(m)) => assert_eq!(m, "channel closed"),
        _ => panic!("expected the send failure"),
    }
    assert_eq!(jobs.next_job_id(), 0);
    assert_eq!(jobs.job_of(&n), None);
    let plan = jobs.plan_submission(&n);
    assert!(jobs.finish_submission(n, plan, Ok(())).is_ok());
    assert_eq!(jobs.next_job_id(), 1);
    assert_eq!(jobs.job_of(&n), Some(0));
}

#[test]
fn plan_without_a_job_ignores_the_send() {
    let mut jobs = ProofJobs::new();
    let n = U256::from_u64(3);
    submit(&mut jobs, n);
    jobs.set_current_job(Some(0));
    let plan = jobs.plan_submission(&n);
    assert_eq!(plan, SubmitPlan::AlreadyQueued);
    assert!(jobs.finish_submission(n, plan, Err("unused".to_string())).is_ok());
    assert_eq!(jobs.next_job_id(), 1);
}
