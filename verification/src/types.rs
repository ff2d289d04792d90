//! The values that cross the library's boundary, and their views.

use vstd::prelude::*;

verus! {

/// What is known about how a job was run.
#[derive(Debug)]
pub struct ResultMetadata {
    pub task_type: String,
    pub duration_ms: u64,
    pub worker_address: String,
}

/// The outcome of one processed job.
#[derive(Debug)]
pub struct JobResult {
    pub job_id: String,
    pub input_hash: String,
    pub output_hash: String,
    pub output_cid: String,
    pub timestamp: u64,
    pub success: bool,
    pub metadata: ResultMetadata,
}

/// A signed statement that binds a job and its hashes to a signer and a time.
#[derive(Debug)]
pub struct Attestation {
    pub job_id: String,
    pub input_hash: String,
    pub output_hash: String,
    pub worker_public_key: String,
    pub worker_address: String,
    pub timestamp: u64,
    pub signature: String,
    pub version: String,
}

/// A notification for the host to publish.
#[derive(Debug)]
pub enum Event<'a> {
    JobProcessed { job_id: &'a str, success: bool },
    AttestationGenerated { job_id: &'a str, signature: &'a str },
}

/// Why a call failed.
#[derive(Debug)]
pub enum ProcessorError {
    /// The task type is not one the processor knows; it is carried along.
    UnknownTaskType(String),
    /// The signing payload could not be written.
    SerializationError,
}

/// What a `ResultMetadata` holds.
pub struct ResultMetadataView {
    pub task_type: Seq<char>,
    pub duration_ms: u64,
    pub worker_address: Seq<char>,
}

/// What a `JobResult` holds.
pub struct JobResultView {
    pub job_id: Seq<char>,
    pub input_hash: Seq<char>,
    pub output_hash: Seq<char>,
    pub output_cid: Seq<char>,
    pub timestamp: u64,
    pub success: bool,
    pub metadata: ResultMetadataView,
}

/// What an `Attestation` holds.
pub struct AttestationView {
    pub job_id: Seq<char>,
    pub input_hash: Seq<char>,
    pub output_hash: Seq<char>,
    pub worker_public_key: Seq<char>,
    pub worker_address: Seq<char>,
    pub timestamp: u64,
    pub signature: Seq<char>,
    pub version: Seq<char>,
}

/// What an `Event` holds.
pub enum EventView {
    JobProcessed { job_id: Seq<char>, success: bool },
    AttestationGenerated { job_id: Seq<char>, signature: Seq<char> },
}

/// What a `ProcessorError` holds.
pub enum ProcessorErrorView {
    UnknownTaskType(Seq<char>),
    SerializationError,
}

impl View for ResultMetadata {
    type V = ResultMetadataView;

    open spec fn view(&self) -> ResultMetadataView {
        ResultMetadataView {
            task_type: self.task_type@,
            duration_ms: self.duration_ms,
            worker_address: self.worker_address@,
        }
    }
}

impl View for JobResult {
    type V = JobResultView;

    open spec fn view(&self) -> JobResultView {
        JobResultView {
            job_id: self.job_id@,
            input_hash: self.input_hash@,
            output_hash: self.output_hash@,
            output_cid: self.output_cid@,
            timestamp: self.timestamp,
            success: self.success,
            metadata: self.metadata@,
        }
    }
}

impl View for Attestation {
    type V = AttestationView;

    open spec fn view(&self) -> AttestationView {
        AttestationView {
            job_id: self.job_id@,
            input_hash: self.input_hash@,
            output_hash: self.output_hash@,
            worker_public_key: self.worker_public_key@,
            worker_address: self.worker_address@,
            timestamp: self.timestamp,
            signature: self.signature@,
            version: self.version@,
        }
    }
}

impl<'a> View for Event<'a> {
    type V = EventView;

    open spec fn view(&self) -> EventView {
        match *self {
            Event::JobProcessed { job_id, success } => EventView::JobProcessed { job_id: job_id@, success },
            Event::AttestationGenerated { job_id, signature } => EventView::AttestationGenerated {
                job_id: job_id@,
                signature: signature@,
            },
        }
    }
}

impl View for ProcessorError {
    type V = ProcessorErrorView;

    open spec fn view(&self) -> ProcessorErrorView {
        match self {
            ProcessorError::UnknownTaskType(task_type) => ProcessorErrorView::UnknownTaskType(task_type@),
            ProcessorError::SerializationError => ProcessorErrorView::SerializationError,
        }
    }
}

impl JobResult {
    /// The notification that this job was processed.
    pub fn event(&self) -> (event: Event<'_>)
        ensures
            event@ == (EventView::JobProcessed { job_id: self.job_id@, success: self.success }),
    {
        Event::JobProcessed { job_id: self.job_id.as_str(), success: self.success }
    }
}

impl Attestation {
    /// The notification that this attestation was generated.
    pub fn event(&self) -> (event: Event<'_>)
        ensures
            event@ == (EventView::AttestationGenerated {
                job_id: self.job_id@,
                signature: self.signature@,
            }),
    {
        Event::AttestationGenerated { job_id: self.job_id.as_str(), signature: self.signature.as_str() }
    }
}

impl ProcessorError {
    /// The error in words.
    pub fn message(&self) -> (text: String)
        ensures
            text@ == match self@ {
                ProcessorErrorView::UnknownTaskType(task_type) => "Unknown task type: "@ + task_type,
                ProcessorErrorView::SerializationError => "Serialization error"@,
            },
    {
        match self {
            ProcessorError::UnknownTaskType(task_type) => {
                let mut text = "Unknown task type: ".to_string();
                text.append(task_type.as_str());
                text
            },
            ProcessorError::SerializationError => "Serialization error".to_string(),
        }
    }
}

} // verus!
