use munus_job_processor::processor::MunusJobProcessor;
use munus_job_processor::tasks::{INVOICE_OUTPUT, REPORT_OUTPUT};
use munus_job_processor::types::ProcessorError;
use serde_json::{Number, Value};

fn text(value: &str) -> Value {
    Value::String(value.to_string())
}

fn object(members: Vec<(&str, Value)>) -> Value {
    let mut map = serde_json::Map::new();
    for (key, value) in members {
        map.insert(key.to_string(), value);
    }
    Value::Object(map)
}

#[test]
fn parse_invoice_gives_the_invoice() {
    let processor = MunusJobProcessor::default();
    let expected = object(vec![
        ("invoice_number", text("INV-2025-001")),
        ("total", text("1500.00")),
        ("currency", text("USD")),
        (
            "line_items",
            Value::Array(vec![
                object(vec![("description", text("Design work")), ("amount", text("1000.00"))]),
                object(vec![("description", text("Revisions")), ("amount", text("500.00"))]),
            ]),
        ),
    ]);
    let output = processor.parse_invoice("cid-input-1");
    assert_eq!(output, serde_json::to_string(&expected).unwrap());
    assert_eq!(output, INVOICE_OUTPUT);
    assert_eq!(serde_json::from_str::<Value>(&output).unwrap(), expected);
}

#[test]
fn generate_report_gives_the_report() {
    let processor = MunusJobProcessor::default();
    let expected = object(vec![
        ("report_type", text("weekly_summary")),
        ("total_jobs", Value::Number(Number::from(42u64))),
        ("total_value", text("12.5 ETH")),
        ("completion_rate", text("95%")),
    ]);
    let output = processor.generate_report("cid-input-1");
    assert_eq!(output, serde_json::to_string(&expected).unwrap());
    assert_eq!(output, REPORT_OUTPUT);
    assert_eq!(
        output,
        "{\"completion_rate\":\"95%\",\"report_type\":\"weekly_summary\",\"total_jobs\":42,\"total_value\":\"12.5 ETH\"}"
    );
}

#[test]
fn process_data_carries_the_clock_reading() {
    let processor = MunusJobProcessor::default();
    let expected = object(vec![
        ("status", text("processed")),
        ("timestamp", Value::Number(Number::from(1700000000123u64))),
        ("result", text("success")),
    ]);
    let output = processor.process_data("cid-input-1", 1700000000123);
    assert_eq!(output, serde_json::to_string(&expected).unwrap());
    assert_eq!(
        output,
        "{\"result\":\"success\",\"status\":\"processed\",\"timestamp\":1700000000123}"
    );
}

#[test]
fn process_data_at_the_ends_of_the_clock() {
    let processor = MunusJobProcessor::default();
    assert_eq!(
        processor.process_data("x", 0),
        "{\"result\":\"success\",\"status\":\"processed\",\"timestamp\":0}"
    );
    assert_eq!(
        processor.process_data("x", u64::MAX),
        "{\"result\":\"success\",\"status\":\"processed\",\"timestamp\":18446744073709551615}"
    );
}

#[test]
fn dispatch_routes_each_known_task() {
    let processor = MunusJobProcessor::default();
    assert_eq!(processor.dispatch("parse_invoice", "in", 5).unwrap(), processor.parse_invoice("in"));
    assert_eq!(processor.dispatch("generate_report", "in", 5).unwrap(), processor.generate_report("in"));
    assert_eq!(processor.dispatch("process_data", "in", 5).unwrap(), processor.process_data("in", 5));
}

#[test]
fn dispatch_output_does_not_depend_on_the_input() {
    let processor = MunusJobProcessor::default();
    for task in ["parse_invoice", "generate_report", "process_data"] {
        assert_eq!(
            processor.dispatch(task, "one", 9).unwrap(),
            processor.dispatch(task, "another", 9).unwrap()
        );
    }
    assert_eq!(
        processor.dispatch("parse_invoice", "one", 1).unwrap(),
        processor.dispatch("parse_invoice", "one", 2).unwrap()
    );
    assert_ne!(
        processor.dispatch("process_data", "one", 1).unwrap(),
        processor.dispatch("process_data", "one", 2).unwrap()
    );
}

#[test]
fn dispatch_rejects_an_unknown_task() {
    let processor = MunusJobProcessor::default();
    match processor.dispatch("bogus_task", "in", 5) {
        Err(ProcessorError::UnknownTaskType(name)) => assert_eq!(name, "bogus_task"),
        other => panic!("unexpected outcome: {:?}", other),
    }
}

#[test]
fn dispatch_matches_names_exactly() {
    let processor = MunusJobProcessor::default();
    for name in ["", "Parse_Invoice", "parse_invoice ", " process_data", "process_dat", "process_data2"] {
        match processor.dispatch(name, "in", 5) {
            Err(ProcessorError::UnknownTaskType(carried)) => assert_eq!(carried, name),
            other => panic!("unexpected outcome: {:?}", other),
        }
    }
}
