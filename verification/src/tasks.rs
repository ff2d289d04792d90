//! The tasks a job can name, and what each of them produces.
//!
//! The set of task types is closed: a name is matched exactly, and any other
//! name is an error.

use vstd::prelude::*;

use crate::decimal::{decimal, u64_to_decimal};
use crate::processor::MunusJobProcessor;
use crate::text::same_text;
use crate::types::{ProcessorError, ProcessorErrorView};

verus! {

/// What `parse_invoice` produces.
pub const INVOICE_OUTPUT: &'static str =
    "{\"currency\":\"USD\",\"invoice_number\":\"INV-2025-001\",\"line_items\":[{\"amount\":\"1000.00\",\"description\":\"Design work\"},{\"amount\":\"500.00\",\"description\":\"Revisions\"}],\"total\":\"1500.00\"}";

/// What `generate_report` produces.
pub const REPORT_OUTPUT: &'static str =
    "{\"completion_rate\":\"95%\",\"report_type\":\"weekly_summary\",\"total_jobs\":42,\"total_value\":\"12.5 ETH\"}";

/// What `process_data` produces at the clock reading `now`.
pub open spec fn data_output(now: u64) -> Seq<char> {
    "{\"result\":\"success\",\"status\":\"processed\",\"timestamp\":"@ + decimal(now as nat) + "}"@
}

/// Whether a task has the name `task_type`.
pub open spec fn is_known_task(task_type: Seq<char>) -> bool {
    task_type == "parse_invoice"@ || task_type == "generate_report"@ || task_type == "process_data"@
}

/// What the task named `task_type` produces for the input `input_cid` at the
/// clock reading `now`; `None` where no task has that name.
pub open spec fn task_output(task_type: Seq<char>, input_cid: Seq<char>, now: u64) -> Option<Seq<char>> {
    if task_type == "parse_invoice"@ {
        Some(INVOICE_OUTPUT@)
    } else if task_type == "generate_report"@ {
        Some(REPORT_OUTPUT@)
    } else if task_type == "process_data"@ {
        Some(data_output(now))
    } else {
        None
    }
}

impl MunusJobProcessor {
    /// The parsed invoice.
    pub fn parse_invoice(&self, _input_cid: &str) -> (output: String)
        ensures
            output@ == INVOICE_OUTPUT@,
    {
        INVOICE_OUTPUT.to_string()
    }

    /// The generated report.
    pub fn generate_report(&self, _input_cid: &str) -> (output: String)
        ensures
            output@ == REPORT_OUTPUT@,
    {
        REPORT_OUTPUT.to_string()
    }

    /// The record of a generic processing step, stamped with the clock reading `now`.
    pub fn process_data(&self, _input_cid: &str, now: u64) -> (output: String)
        ensures
            output@ == data_output(now),
    {
        let mut output = "{\"result\":\"success\",\"status\":\"processed\",\"timestamp\":".to_string();
        let stamp = u64_to_decimal(now);
        output.append(stamp.as_str());
        output.append("}");
        output
    }

    /// Runs the task named `task_type` on `input_cid`. A name that matches no
    /// task is handed back in the error.
    pub fn dispatch(&self, task_type: &str, input_cid: &str, now: u64) -> (output: Result<
        String,
        ProcessorError,
    >)
        ensures
            output is Ok <==> is_known_task(task_type@),
            match output {
                Ok(text) => task_output(task_type@, input_cid@, now) == Some(text@),
                Err(error) => error@ == ProcessorErrorView::UnknownTaskType(task_type@),
            },
    {
        if same_text(task_type, "parse_invoice") {
            Ok(self.parse_invoice(input_cid))
        } else if same_text(task_type, "generate_report") {
            Ok(self.generate_report(input_cid))
        } else if same_text(task_type, "process_data") {
            Ok(self.process_data(input_cid, now))
        } else {
            Err(ProcessorError::UnknownTaskType(task_type.to_string()))
        }
    }
}

/// What a task produces does not depend on its input, and only
/// `process_data` depends on the clock.
pub proof fn lemma_task_output_fixed(
    task_type: Seq<char>,
    first_input: Seq<char>,
    second_input: Seq<char>,
    first_now: u64,
    second_now: u64,
)
    requires
        first_now == second_now || task_type != "process_data"@,
    ensures
        task_output(task_type, first_input, first_now) == task_output(task_type, second_input, second_now),
{
}

} // verus!
