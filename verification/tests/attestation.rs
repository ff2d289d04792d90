use munus_job_processor::processor::{MunusJobProcessor, ATTESTATION_VERSION};
use munus_job_processor::types::Event;
use serde_json::{Number, Value};

fn with_serde_json(job_id: &str, input_hash: &str, output_hash: &str, key: &str, timestamp: u64) -> String {
    let mut map = serde_json::Map::new();
    map.insert("jobId".to_string(), Value::String(job_id.to_string()));
    map.insert("inputHash".to_string(), Value::String(input_hash.to_string()));
    map.insert("outputHash".to_string(), Value::String(output_hash.to_string()));
    map.insert("workerPublicKey".to_string(), Value::String(key.to_string()));
    map.insert("timestamp".to_string(), Value::Number(Number::from(timestamp)));
    serde_json::to_string(&Value::Object(map)).unwrap()
}

/// Stands in for the host's signing primitive.
fn fake_sign(payload: &[u8]) -> Vec<u8> {
    <sha2::Sha256 as sha2::Digest>::digest(payload).to_vec()
}

#[test]
fn payload_has_the_five_members_in_key_order() {
    let payload =
        MunusJobProcessor::attestation_payload("job-1", "0xabc", "0xdef", "signer-key", 1700000000).unwrap();
    assert_eq!(
        payload,
        "{\"inputHash\":\"0xabc\",\"jobId\":\"job-1\",\"outputHash\":\"0xdef\",\"timestamp\":1700000000,\"workerPublicKey\":\"signer-key\"}"
    );
}

#[test]
fn payload_agrees_with_serde_json() {
    let cases = [
        ("job-1", "0xabc", "0xdef", "signer-key", 1700000000u64),
        ("", "", "", "", 0),
        ("a \"quoted\" id", "back\\slash", "line\nbreak\ttab", "\u{1}\u{1f}ctl", u64::MAX),
        ("caf\u{e9} \u{1F600}", "/slash", "\u{7f}", "\u{2028}", 42),
    ];
    for (job_id, input_hash, output_hash, key, timestamp) in cases {
        assert_eq!(
            MunusJobProcessor::attestation_payload(job_id, input_hash, output_hash, key, timestamp).unwrap(),
            with_serde_json(job_id, input_hash, output_hash, key, timestamp)
        );
    }
}

#[test]
fn payload_escapes_what_json_forbids_in_a_string() {
    let payload = MunusJobProcessor::attestation_payload("a\"b", "c\\d", "e\nf", "g", 1).unwrap();
    assert_eq!(
        payload,
        "{\"inputHash\":\"c\\\\d\",\"jobId\":\"a\\\"b\",\"outputHash\":\"e\\nf\",\"timestamp\":1,\"workerPublicKey\":\"g\"}"
    );
    let parsed: Value = serde_json::from_str(&payload).unwrap();
    assert_eq!(parsed["jobId"], Value::String("a\"b".to_string()));
    assert_eq!(parsed["inputHash"], Value::String("c\\d".to_string()));
    assert_eq!(parsed["outputHash"], Value::String("e\nf".to_string()));
}

#[test]
fn assembled_payload_frames_the_given_members() {
    assert_eq!(
        MunusJobProcessor::assemble_payload("\"j\"", "\"i\"", "\"o\"", "\"k\"", 12),
        "{\"inputHash\":\"i\",\"jobId\":\"j\",\"outputHash\":\"o\",\"timestamp\":12,\"workerPublicKey\":\"k\"}"
    );
    assert_eq!(
        MunusJobProcessor::assemble_payload("1", "2", "3", "4", 0),
        "{\"inputHash\":2,\"jobId\":1,\"outputHash\":3,\"timestamp\":0,\"workerPublicKey\":4}"
    );
}

#[test]
fn payload_is_the_same_for_the_same_fields() {
    let first = MunusJobProcessor::attestation_payload("job-1", "0xabc", "0xdef", "signer-key", 1700000000).unwrap();
    let second = MunusJobProcessor::attestation_payload("job-1", "0xabc", "0xdef", "signer-key", 1700000000).unwrap();
    assert_eq!(first.as_bytes(), second.as_bytes());
    let other = MunusJobProcessor::attestation_payload("job-1", "0xabc", "0xdef", "signer-key", 1700000001).unwrap();
    assert_ne!(first, other);
    let other_key = MunusJobProcessor::attestation_payload("job-1", "0xabc", "0xdef", "other-key", 1700000000).unwrap();
    assert_ne!(first, other_key);
}

#[test]
fn attestation_scenario() {
    let processor = MunusJobProcessor::default();
    let identity = "signer-key".to_string();
    let payload =
        MunusJobProcessor::attestation_payload("job-1", "0xabc...", "0xdef...", &identity, 1700000000).unwrap();
    let signature = fake_sign(payload.as_bytes());
    let attestation = processor.sign_attestation(
        "job-1".to_string(),
        "0xabc...".to_string(),
        "0xdef...".to_string(),
        1700000000,
        "0xWorker".to_string(),
        identity.clone(),
        &signature,
    );
    assert_eq!(attestation.version, "1.0");
    assert_eq!(attestation.version, ATTESTATION_VERSION);
    assert_eq!(attestation.worker_public_key, identity);
    assert!(!attestation.signature.is_empty());
    assert!(attestation.signature.chars().all(|c| matches!(c, '0'..='9' | 'a'..='f')));
    assert_eq!(attestation.signature, hex::encode(&signature));
    assert_eq!(attestation.job_id, "job-1");
    assert_eq!(attestation.input_hash, "0xabc...");
    assert_eq!(attestation.output_hash, "0xdef...");
    assert_eq!(attestation.worker_address, "0xWorker");
    assert_eq!(attestation.timestamp, 1700000000);
    assert_eq!(processor.get_stats(), 0);
}

#[test]
fn signature_is_rendered_in_lowercase_hexadecimal() {
    let processor = MunusJobProcessor::default();
    let attestation = processor.sign_attestation(
        "j".to_string(),
        "i".to_string(),
        "o".to_string(),
        1,
        "w".to_string(),
        "k".to_string(),
        &[0x01, 0x02, 0x03, 0x0f, 0x10, 0xab, 0xff, 0x00],
    );
    assert_eq!(attestation.signature, "0102030f10abff00");
    let empty = processor.sign_attestation(
        "j".to_string(),
        "i".to_string(),
        "o".to_string(),
        1,
        "w".to_string(),
        "k".to_string(),
        &[],
    );
    assert_eq!(empty.signature, "");
}

#[test]
fn attestation_names_its_event() {
    let processor = MunusJobProcessor::default();
    let attestation = processor.sign_attestation(
        "job-1".to_string(),
        "0xabc".to_string(),
        "0xdef".to_string(),
        1700000000,
        "0xWorker".to_string(),
        "signer-key".to_string(),
        &[0xde, 0xad],
    );
    match attestation.event() {
        Event::AttestationGenerated { job_id, signature } => {
            assert_eq!(job_id, "job-1");
            assert_eq!(signature, "dead");
        }
        other => panic!("unexpected event: {:?}", other),
    }
}

#[test]
fn payload_writes_each_escape_as_json_does() {
    let cases = [
        ("\"", "\"\\\"\""),
        ("\\", "\"\\\\\""),
        ("\u{8}", "\"\\b\""),
        ("\t", "\"\\t\""),
        ("\n", "\"\\n\""),
        ("\u{c}", "\"\\f\""),
        ("\r", "\"\\r\""),
        ("\u{0}", "\"\\u0000\""),
        ("\u{1}", "\"\\u0001\""),
        ("\u{b}", "\"\\u000b\""),
        ("\u{e}", "\"\\u000e\""),
        ("\u{10}", "\"\\u0010\""),
        ("\u{1a}", "\"\\u001a\""),
        ("\u{1f}", "\"\\u001f\""),
        (" ", "\" \""),
        ("/", "\"/\""),
        ("\u{7f}", "\"\u{7f}\""),
        ("\u{e9}", "\"\u{e9}\""),
        ("\u{2028}", "\"\u{2028}\""),
        ("\u{1F600}", "\"\u{1F600}\""),
        ("a\"b\\c\nd", "\"a\\\"b\\\\c\\nd\""),
        ("", "\"\""),
    ];
    for (text, json) in cases {
        let payload = MunusJobProcessor::attestation_payload(text, "i", "o", "k", 7).unwrap();
        assert_eq!(
            payload,
            format!(
                "{{\"inputHash\":\"i\",\"jobId\":{},\"outputHash\":\"o\",\"timestamp\":7,\"workerPublicKey\":\"k\"}}",
                json
            )
        );
    }
}

#[test]
fn payload_never_fails_and_reads_back() {
    let texts = ["", "job-1", "a\"b", "\\", "\u{0}\u{1f}", "x\ny\tz", "caf\u{e9} \u{1F600}", "\",\"jobId\":\"other"];
    for job_id in texts {
        for key in texts {
            for timestamp in [0u64, 9, 10, 1700000000, u64::MAX] {
                let payload = MunusJobProcessor::attestation_payload(job_id, "0xabc", key, key, timestamp).unwrap();
                let parsed: Value = serde_json::from_str(&payload).unwrap();
                assert_eq!(parsed["jobId"], Value::String(job_id.to_string()));
                assert_eq!(parsed["inputHash"], Value::String("0xabc".to_string()));
                assert_eq!(parsed["outputHash"], Value::String(key.to_string()));
                assert_eq!(parsed["workerPublicKey"], Value::String(key.to_string()));
                assert_eq!(parsed["timestamp"], Value::Number(Number::from(timestamp)));
                assert_eq!(parsed.as_object().unwrap().len(), 5);
            }
        }
    }
}

#[test]
fn different_fields_give_different_payloads() {
    // A field that looks like the text between two members is escaped, so it
    // cannot pass for them.
    let plain = MunusJobProcessor::attestation_payload("a", "b", "c", "d", 1).unwrap();
    let forged = MunusJobProcessor::attestation_payload("a\",\"outputHash\":\"c", "b", "", "d", 1).unwrap();
    assert_ne!(plain, forged);
    let shifted = MunusJobProcessor::attestation_payload("a", "b", "c", "d", 10).unwrap();
    assert_ne!(plain, shifted);
    let swapped = MunusJobProcessor::attestation_payload("b", "a", "c", "d", 1).unwrap();
    assert_ne!(plain, swapped);
}
