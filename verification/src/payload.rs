//! The canonical signing payload of an attestation.
//!
//! The payload is a JSON object of five members in a fixed order, sorted by
//! key, without any whitespace. A signature is computed over the UTF-8 bytes
//! of this text, so a verifier that knows the five fields can rebuild the
//! exact bytes that were signed.

use vstd::prelude::*;
use vstd::utf8::encode_utf8;

use crate::decimal::{decimal, u64_to_decimal};
use crate::hashing::hex_digit;
use crate::processor::MunusJobProcessor;
use crate::types::ProcessorError;

verus! {

/// `serde_json::Error`: why a value could not be written. Nothing is read
/// from it.
#[verifier::external_type_specification]
#[verifier::external_body]
pub struct ExJsonError(serde_json::Error);

/// How a character stands inside a JSON string: the double quote, the
/// backslash and the control characters below U+0020 are escaped, the five
/// that have a short escape by it and the others as `\u00` and two
/// lowercase hexadecimal digits; every other character stands as it is.
pub open spec fn json_escape(c: char) -> Seq<char> {
    if c == '"' {
        seq!['\\', '"']
    } else if c == '\\' {
        seq!['\\', '\\']
    } else if c == '\u{8}' {
        seq!['\\', 'b']
    } else if c == '\t' {
        seq!['\\', 't']
    } else if c == '\n' {
        seq!['\\', 'n']
    } else if c == '\u{c}' {
        seq!['\\', 'f']
    } else if c == '\r' {
        seq!['\\', 'r']
    } else if (c as u32) < 0x20 {
        seq!['\\', 'u', '0', '0', hex_digit(c as int / 16), hex_digit(c as int % 16)]
    } else {
        seq![c]
    }
}

/// The characters of `text`, each as it stands inside a JSON string.
pub open spec fn json_escaped(text: Seq<char>) -> Seq<char>
    decreases text.len(),
{
    if text.len() == 0 {
        Seq::empty()
    } else {
        json_escape(text[0]) + json_escaped(text.skip(1))
    }
}

/// `text` as a JSON string: its escaped characters between double quotes.
pub open spec fn json_string(text: Seq<char>) -> Seq<char> {
    seq!['"'] + json_escaped(text) + seq!['"']
}

/// The payload text around five members that are already JSON values.
pub open spec fn payload_text(
    job_id_json: Seq<char>,
    input_hash_json: Seq<char>,
    output_hash_json: Seq<char>,
    worker_public_key_json: Seq<char>,
    timestamp: u64,
) -> Seq<char> {
    "{\"inputHash\":"@ + input_hash_json + ",\"jobId\":"@ + job_id_json + ",\"outputHash\":"@
        + output_hash_json + ",\"timestamp\":"@ + decimal(timestamp as nat)
        + ",\"workerPublicKey\":"@ + worker_public_key_json + "}"@
}

/// The canonical payload of an attestation with the given fields.
pub open spec fn canonical_payload(
    job_id: Seq<char>,
    input_hash: Seq<char>,
    output_hash: Seq<char>,
    worker_public_key: Seq<char>,
    timestamp: u64,
) -> Seq<char> {
    payload_text(
        json_string(job_id),
        json_string(input_hash),
        json_string(output_hash),
        json_string(worker_public_key),
        timestamp,
    )
}

/// Calls `serde_json::to_string` on a string slice. The call writes into a
/// byte vector, which takes every write, so it does not fail. It writes a
/// double quote, the slice with each byte of its escape table replaced by
/// the escape, and a double quote; the table holds the double quote, the
/// backslash and the bytes below 0x20.
#[verifier::external_body]
fn json_quote(text: &str) -> (quoted: Result<String, serde_json::Error>)
    ensures
        quoted is Ok,
        quoted matches Ok(json) ==> json@ == json_string(text@),
{
    serde_json::to_string(text)
}

impl MunusJobProcessor {
    /// Writes the payload around five members that are already JSON values.
    pub fn assemble_payload(
        job_id_json: &str,
        input_hash_json: &str,
        output_hash_json: &str,
        worker_public_key_json: &str,
        timestamp: u64,
    ) -> (payload: String)
        ensures
            payload@ == payload_text(
                job_id_json@,
                input_hash_json@,
                output_hash_json@,
                worker_public_key_json@,
                timestamp,
            ),
    {
        let stamp = u64_to_decimal(timestamp);
        let mut payload = "{\"inputHash\":".to_string();
        payload.append(input_hash_json);
        payload.append(",\"jobId\":");
        payload.append(job_id_json);
        payload.append(",\"outputHash\":");
        payload.append(output_hash_json);
        payload.append(",\"timestamp\":");
        payload.append(stamp.as_str());
        payload.append(",\"workerPublicKey\":");
        payload.append(worker_public_key_json);
        payload.append("}");
        payload
    }

    /// Builds the canonical payload of an attestation: the text whose UTF-8
    /// bytes are to be signed. The caller's `worker_address` is no part of it.
    /// Every five fields have a payload: the call does not fail.
    pub fn attestation_payload(
        job_id: &str,
        input_hash: &str,
        output_hash: &str,
        worker_public_key: &str,
        timestamp: u64,
    ) -> (payload: Result<String, ProcessorError>)
        ensures
            payload is Ok,
            payload matches Ok(text) ==> text@ == canonical_payload(
                job_id@,
                input_hash@,
                output_hash@,
                worker_public_key@,
                timestamp,
            ),
    {
        let job_id_json = match json_quote(job_id) {
            Ok(json) => json,
            Err(_) => return Err(ProcessorError::SerializationError),
        };
        let input_hash_json = match json_quote(input_hash) {
            Ok(json) => json,
            Err(_) => return Err(ProcessorError::SerializationError),
        };
        let output_hash_json = match json_quote(output_hash) {
            Ok(json) => json,
            Err(_) => return Err(ProcessorError::SerializationError),
        };
        let worker_public_key_json = match json_quote(worker_public_key) {
            Ok(json) => json,
            Err(_) => return Err(ProcessorError::SerializationError),
        };
        Ok(
            Self::assemble_payload(
                job_id_json.as_str(),
                input_hash_json.as_str(),
                output_hash_json.as_str(),
                worker_public_key_json.as_str(),
                timestamp,
            ),
        )
    }
}

/// Two payloads built from the same five fields are the same text and the
/// same bytes: the signer is fed what a verifier rebuilds.
pub proof fn lemma_payload_determined(
    first: Seq<char>,
    second: Seq<char>,
    job_id: Seq<char>,
    input_hash: Seq<char>,
    output_hash: Seq<char>,
    worker_public_key: Seq<char>,
    timestamp: u64,
)
    requires
        first == canonical_payload(job_id, input_hash, output_hash, worker_public_key, timestamp),
        second == canonical_payload(job_id, input_hash, output_hash, worker_public_key, timestamp),
    ensures
        first == second,
        encode_utf8(first) == encode_utf8(second),
{
}

} // verus!
