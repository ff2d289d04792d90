//! The job processor: its counter, processing a job, and assembling an
//! attestation.

use vstd::prelude::*;

use crate::cid::{cid_text, lemma_cid_of_hex_hash};
use crate::hashing::{hash_text, hex_encode, is_hex_hash, lower_hex};
use crate::tasks::{is_known_task, task_output};
use crate::types::{
    Attestation, AttestationView, JobResult, JobResultView, ProcessorError, ProcessorErrorView,
    ResultMetadata, ResultMetadataView,
};

verus! {

/// Processes jobs and counts the ones that succeeded.
pub struct MunusJobProcessor {
    processed_count: u64,
}

impl View for MunusJobProcessor {
    type V = nat;

    /// The number of jobs processed so far.
    closed spec fn view(&self) -> nat {
        self.processed_count as nat
    }
}

impl Default for MunusJobProcessor {
    /// A processor that has processed no job.
    fn default() -> (processor: Self)
        ensures
            processor@ == 0,
    {
        MunusJobProcessor { processed_count: 0 }
    }
}

/// A job whose task has run and whose output is hashed, before the clock is
/// read for its end. Only `begin_job` makes one.
#[derive(Debug)]
pub struct PendingJob {
    job_id: String,
    input_hash: String,
    output_hash: String,
    output_cid: String,
    task_type: String,
    worker_address: String,
    start_time: u64,
}

/// What a `PendingJob` holds.
pub struct PendingJobView {
    pub job_id: Seq<char>,
    pub input_hash: Seq<char>,
    pub output_hash: Seq<char>,
    pub output_cid: Seq<char>,
    pub task_type: Seq<char>,
    pub worker_address: Seq<char>,
    pub start_time: u64,
}

impl View for PendingJob {
    type V = PendingJobView;

    closed spec fn view(&self) -> PendingJobView {
        PendingJobView {
            job_id: self.job_id@,
            input_hash: self.input_hash@,
            output_hash: self.output_hash@,
            output_cid: self.output_cid@,
            task_type: self.task_type@,
            worker_address: self.worker_address@,
            start_time: self.start_time,
        }
    }
}

/// The job with the given fields, begun at the clock reading `start_time`,
/// once its task has run at `task_time`; `None` where the task type is
/// unknown.
pub open spec fn pending_job(
    job_id: Seq<char>,
    input_cid: Seq<char>,
    task_type: Seq<char>,
    worker_address: Seq<char>,
    start_time: u64,
    task_time: u64,
) -> Option<PendingJobView> {
    match task_output(task_type, input_cid, task_time) {
        Some(output) => Some(
            PendingJobView {
                job_id,
                input_hash: hash_text(input_cid),
                output_hash: hash_text(output),
                output_cid: cid_text(hash_text(output)),
                task_type,
                worker_address,
                start_time,
            },
        ),
        None => None,
    }
}

/// The result of a pending job that ended at the clock reading `end_time`.
pub open spec fn finished_job(pending: PendingJobView, end_time: u64) -> JobResultView {
    JobResultView {
        job_id: pending.job_id,
        input_hash: pending.input_hash,
        output_hash: pending.output_hash,
        output_cid: pending.output_cid,
        timestamp: end_time,
        success: true,
        metadata: ResultMetadataView {
            task_type: pending.task_type,
            duration_ms: (end_time - pending.start_time) as u64,
            worker_address: pending.worker_address,
        },
    }
}

/// The result of the job with the given fields, run between the clock
/// readings `start_time` and `end_time`, whose task read the clock at
/// `task_time`; `None` where the task type is unknown.
pub open spec fn job_result(
    job_id: Seq<char>,
    input_cid: Seq<char>,
    task_type: Seq<char>,
    worker_address: Seq<char>,
    start_time: u64,
    task_time: u64,
    end_time: u64,
) -> Option<JobResultView> {
    match pending_job(job_id, input_cid, task_type, worker_address, start_time, task_time) {
        Some(pending) => Some(finished_job(pending, end_time)),
        None => None,
    }
}

/// The counter after a job of the given task type was handed to a processor
/// whose counter was `count`.
pub open spec fn count_after(count: nat, task_type: Seq<char>) -> nat {
    if is_known_task(task_type) {
        count + 1
    } else {
        count
    }
}

/// The counter after jobs of the given task types were handed, one after the
/// other, to a processor whose counter was `count`.
pub open spec fn count_after_all(count: nat, task_types: Seq<Seq<char>>) -> nat
    decreases task_types.len(),
{
    if task_types.len() == 0 {
        count
    } else {
        count_after(count_after_all(count, task_types.drop_last()), task_types.last())
    }
}

/// The protocol version that every attestation carries.
pub const ATTESTATION_VERSION: &'static str = "1.0";

impl MunusJobProcessor {
    /// A processor that takes up a counter that was stored earlier.
    pub fn with_count(processed_count: u64) -> (processor: Self)
        ensures
            processor@ == processed_count,
    {
        MunusJobProcessor { processed_count }
    }

    /// Processes one job: runs its task, hashes input and output, mints the
    /// output's content identifier and counts the job.
    ///
    /// `start_time` and `end_time` are the clock readings taken before and
    /// after the job, `task_time` the one the task itself sees. An unknown
    /// task type fails the call and leaves the counter as it was, whatever
    /// the clock and the counter hold.
    pub fn process_job(
        &mut self,
        job_id: String,
        input_cid: String,
        task_type: String,
        worker_address: String,
        start_time: u64,
        task_time: u64,
        end_time: u64,
    ) -> (result: Result<JobResult, ProcessorError>)
        requires
            is_known_task(task_type@) ==> start_time <= end_time && old(self)@ < u64::MAX,
        ensures
            result is Ok <==> is_known_task(task_type@),
            final(self)@ == count_after(old(self)@, task_type@),
            match result {
                Ok(job) => {
                    &&& job_result(
                        job_id@,
                        input_cid@,
                        task_type@,
                        worker_address@,
                        start_time,
                        task_time,
                        end_time,
                    ) == Some(job@)
                    &&& is_hex_hash(job.input_hash@)
                    &&& is_hex_hash(job.output_hash@)
                    &&& job.output_cid@ == "Qm"@ + job.output_hash@.subrange(2, 48)
                },
                Err(error) => error@ == ProcessorErrorView::UnknownTaskType(task_type@),
            },
    {
        let pending = match self.begin_job(
            job_id,
            input_cid,
            task_type,
            worker_address,
            start_time,
            task_time,
        ) {
            Ok(pending) => pending,
            Err(error) => {
                return Err(error);
            },
        };
        Ok(self.finish_job(pending, end_time))
    }

    /// Begins a job: runs its task, hashes input and output and mints the
    /// output's content identifier. Nothing is counted yet.
    ///
    /// `start_time` is the clock reading taken before the job, `task_time`
    /// the one the task itself sees. An unknown task type fails the call.
    pub fn begin_job(
        &self,
        job_id: String,
        input_cid: String,
        task_type: String,
        worker_address: String,
        start_time: u64,
        task_time: u64,
    ) -> (result: Result<PendingJob, ProcessorError>)
        ensures
            result is Ok <==> is_known_task(task_type@),
            match result {
                Ok(pending) => {
                    &&& pending_job(
                        job_id@,
                        input_cid@,
                        task_type@,
                        worker_address@,
                        start_time,
                        task_time,
                    ) == Some(pending@)
                    &&& is_hex_hash(pending@.input_hash)
                    &&& is_hex_hash(pending@.output_hash)
                    &&& pending@.output_cid == "Qm"@ + pending@.output_hash.subrange(2, 48)
                },
                Err(error) => error@ == ProcessorErrorView::UnknownTaskType(task_type@),
            },
    {
        let input_hash = Self::hash_string(input_cid.as_str());
        let output_data = match self.dispatch(task_type.as_str(), input_cid.as_str(), task_time) {
            Ok(output) => output,
            Err(error) => {
                return Err(error);
            },
        };
        let output_hash = Self::hash_string(output_data.as_str());
        let output_cid = Self::mint_cid(output_hash.as_str());
        proof {
            lemma_cid_of_hex_hash(output_hash@);
        }
        Ok(PendingJob { job_id, input_hash, output_hash, output_cid, task_type, worker_address, start_time })
    }

    /// Finishes a job that `begin_job` began: stamps it with the clock
    /// reading taken after it, and counts it.
    pub fn finish_job(&mut self, pending: PendingJob, end_time: u64) -> (job: JobResult)
        requires
            pending@.start_time <= end_time,
            old(self)@ < u64::MAX,
        ensures
            job@ == finished_job(pending@, end_time),
            final(self)@ == old(self)@ + 1,
    {
        let duration_ms = end_time - pending.start_time;
        self.processed_count = self.processed_count + 1;
        JobResult {
            job_id: pending.job_id,
            input_hash: pending.input_hash,
            output_hash: pending.output_hash,
            output_cid: pending.output_cid,
            timestamp: end_time,
            success: true,
            metadata: ResultMetadata {
                task_type: pending.task_type,
                duration_ms,
                worker_address: pending.worker_address,
            },
        }
    }

    /// Assembles the attestation of a job from the claimed fields, the
    /// signer's identity and the signature over the canonical payload.
    ///
    /// The hashes and the timestamp are the caller's claims and are taken as
    /// they are; so is `worker_address`, which the signature does not cover.
    /// The signature is rendered in lowercase hexadecimal.
    pub fn sign_attestation(
        &self,
        job_id: String,
        input_hash: String,
        output_hash: String,
        timestamp: u64,
        worker_address: String,
        worker_public_key: String,
        signature: &[u8],
    ) -> (attestation: Attestation)
        ensures
            attestation@ == (AttestationView {
                job_id: job_id@,
                input_hash: input_hash@,
                output_hash: output_hash@,
                worker_public_key: worker_public_key@,
                worker_address: worker_address@,
                timestamp,
                signature: lower_hex(signature@),
                version: ATTESTATION_VERSION@,
            }),
    {
        Attestation {
            job_id,
            input_hash,
            output_hash,
            worker_public_key,
            worker_address,
            timestamp,
            signature: hex_encode(signature),
            version: ATTESTATION_VERSION.to_string(),
        }
    }

    /// The number of jobs processed so far.
    pub fn get_stats(&self) -> (count: u64)
        ensures
            count == self@,
    {
        self.processed_count
    }
}

/// A job that fails leaves the counter as it was; one that succeeds adds
/// exactly one.
pub proof fn lemma_count_step(count: nat, task_type: Seq<char>)
    ensures
        is_known_task(task_type) ==> count_after(count, task_type) == count + 1,
        !is_known_task(task_type) ==> count_after(count, task_type) == count,
{
}

/// After any run of jobs against a fresh processor the counter is the number
/// of jobs that succeeded: all of them where every task type is known.
pub proof fn lemma_count_is_successes(task_types: Seq<Seq<char>>)
    ensures
        count_after_all(0, task_types) == task_types.filter(|t: Seq<char>| is_known_task(t)).len(),
        (forall|i: int| 0 <= i < task_types.len() ==> is_known_task(#[trigger] task_types[i]))
            ==> count_after_all(0, task_types) == task_types.len(),
    decreases task_types.len(),
{
    reveal(Seq::filter);
    if task_types.len() > 0 {
        lemma_count_is_successes(task_types.drop_last());
        assert forall|i: int| 0 <= i < task_types.drop_last().len() implies #[trigger] task_types.drop_last()[i]
            == task_types[i] by {}
    }
}

/// Jobs of one task type on one input have the same hashes and the same
/// content identifier, whatever their ids, their workers and the times
/// between which they ran. Only the output of `process_data` follows the
/// clock: two such jobs agree where their tasks read the same value.
pub proof fn lemma_job_output_determined(
    task_type: Seq<char>,
    input_cid: Seq<char>,
    first_job_id: Seq<char>,
    first_worker: Seq<char>,
    first_start: u64,
    first_task_time: u64,
    first_end: u64,
    second_job_id: Seq<char>,
    second_worker: Seq<char>,
    second_start: u64,
    second_task_time: u64,
    second_end: u64,
)
    requires
        first_task_time == second_task_time || task_type != "process_data"@,
    ensures
        ({
            let first = job_result(
                first_job_id,
                input_cid,
                task_type,
                first_worker,
                first_start,
                first_task_time,
                first_end,
            );
            let second = job_result(
                second_job_id,
                input_cid,
                task_type,
                second_worker,
                second_start,
                second_task_time,
                second_end,
            );
            &&& first is Some <==> is_known_task(task_type)
            &&& second is Some <==> is_known_task(task_type)
            &&& is_known_task(task_type) ==> {
                &&& first->0.input_hash == second->0.input_hash
                &&& first->0.output_hash == second->0.output_hash
                &&& first->0.output_cid == second->0.output_cid
            }
        }),
{
}

} // verus!
