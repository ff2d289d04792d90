//! What the canonical payload keeps of its fields: all of them.
//!
//! A JSON string ends at its first double quote that no backslash escapes,
//! and a decimal number ends at the first character that is no digit. So the
//! payload can be read back member by member, and two payloads are the same
//! text only where their fields are the same.

use vstd::prelude::*;
use vstd::utf8::{encode_utf8, encode_utf8_valid_utf8, valid_utf8};

use crate::decimal::{decimal, digit_char};
use crate::hashing::hex_digit;
use crate::payload::{canonical_payload, json_escape, json_escaped, json_string, payload_text};

verus! {

/// Whether `c` is written with a backslash inside a JSON string.
pub open spec fn is_json_escaped(c: char) -> bool {
    c == '"' || c == '\\' || (c as u32) < 0x20
}

/// Whether `c` is one of `0`-`9`.
pub open spec fn is_decimal_digit(c: char) -> bool {
    '0' <= c && c <= '9'
}

proof fn lemma_hex_digit_injective(first: int, second: int)
    requires
        0 <= first < 16,
        0 <= second < 16,
        hex_digit(first) == hex_digit(second),
    ensures
        first == second,
{
    reveal_strlit("0123456789abcdef");
}

/// An escape never starts with a double quote, and starts with a backslash
/// exactly where the character is escaped.
pub proof fn lemma_escape_head(c: char)
    ensures
        json_escape(c).len() >= 1,
        json_escape(c)[0] != '"',
        is_json_escaped(c) <==> json_escape(c)[0] == '\\',
        is_json_escaped(c) ==> json_escape(c).len() >= 2,
        !is_json_escaped(c) ==> json_escape(c) == seq![c],
{
}

/// Where two texts that each begin with an escape are the same text, the
/// escaped characters are the same and so is what follows them.
pub proof fn lemma_escape_unambiguous(first: char, second: char, first_rest: Seq<char>, second_rest: Seq<char>)
    requires
        json_escape(first) + first_rest == json_escape(second) + second_rest,
    ensures
        first == second,
        first_rest == second_rest,
{
    let head = json_escape(first);
    let other = json_escape(second);
    let text = head + first_rest;
    lemma_escape_head(first);
    lemma_escape_head(second);
    assert(text[0] == head[0]);
    assert((other + second_rest)[0] == other[0]);
    if is_json_escaped(first) {
        assert(is_json_escaped(second));
        assert(text[1] == head[1]);
        assert((other + second_rest)[1] == other[1]);
        if head[1] == 'u' {
            assert(head.len() == 6 && other.len() == 6);
            assert(text[4] == head[4] && text[5] == head[5]);
            assert((other + second_rest)[4] == other[4] && (other + second_rest)[5] == other[5]);
            lemma_hex_digit_injective(first as int / 16, second as int / 16);
            lemma_hex_digit_injective(first as int % 16, second as int % 16);
            assert(first as int == second as int);
        }
    }
    assert(first == second);
    assert(first_rest =~= text.skip(head.len() as int));
    assert(second_rest =~= (other + second_rest).skip(other.len() as int));
}

/// Escaped characters hold no bare double quote: where two escaped texts,
/// each followed by a double quote, begin the same text, they are escapes of
/// the same characters, and what follows the quote is the same.
pub proof fn lemma_escaped_unambiguous(
    first: Seq<char>,
    second: Seq<char>,
    first_rest: Seq<char>,
    second_rest: Seq<char>,
)
    requires
        json_escaped(first) + seq!['"'] + first_rest == json_escaped(second) + seq!['"'] + second_rest,
    ensures
        first == second,
        first_rest == second_rest,
    decreases first.len(),
{
    let text = json_escaped(first) + seq!['"'] + first_rest;
    let other = json_escaped(second) + seq!['"'] + second_rest;
    if first.len() == 0 {
        assert(text[0] == '"');
        if second.len() > 0 {
            lemma_escape_head(second[0]);
            assert(other[0] == json_escape(second[0])[0]);
        }
        assert(second.len() == 0);
        assert(first =~= second);
        assert(first_rest =~= text.skip(1));
        assert(second_rest =~= other.skip(1));
    } else {
        lemma_escape_head(first[0]);
        assert(text[0] == json_escape(first[0])[0]);
        if second.len() == 0 {
            assert(other[0] == '"');
        }
        assert(second.len() > 0);
        let first_tail = json_escaped(first.skip(1)) + seq!['"'] + first_rest;
        let second_tail = json_escaped(second.skip(1)) + seq!['"'] + second_rest;
        assert(text =~= json_escape(first[0]) + first_tail);
        assert(other =~= json_escape(second[0]) + second_tail);
        lemma_escape_unambiguous(first[0], second[0], first_tail, second_tail);
        lemma_escaped_unambiguous(first.skip(1), second.skip(1), first_rest, second_rest);
        assert(first =~= seq![first[0]] + first.skip(1));
        assert(second =~= seq![second[0]] + second.skip(1));
    }
}

/// Where two texts that each begin with a JSON string are the same text,
/// the strings are of the same characters and what follows them is the same.
pub proof fn lemma_json_string_unambiguous(
    first: Seq<char>,
    second: Seq<char>,
    first_rest: Seq<char>,
    second_rest: Seq<char>,
)
    requires
        json_string(first) + first_rest == json_string(second) + second_rest,
    ensures
        first == second,
        first_rest == second_rest,
{
    let text = json_string(first) + first_rest;
    let other = json_string(second) + second_rest;
    let first_tail = json_escaped(first) + seq!['"'] + first_rest;
    let second_tail = json_escaped(second) + seq!['"'] + second_rest;
    assert(first_tail =~= text.skip(1));
    assert(second_tail =~= other.skip(1));
    lemma_escaped_unambiguous(first, second, first_rest, second_rest);
}

/// A decimal rendering has at least one character, and all are digits.
pub proof fn lemma_decimal_digits(n: nat)
    ensures
        decimal(n).len() >= 1,
        n >= 10 ==> decimal(n).len() >= 2,
        forall|i: int| 0 <= i < decimal(n).len() ==> is_decimal_digit(#[trigger] decimal(n)[i]),
    decreases n,
{
    reveal_strlit("0123456789");
    if n >= 10 {
        lemma_decimal_digits(n / 10);
    }
}

/// Different numbers have different decimal renderings.
pub proof fn lemma_decimal_injective(first: nat, second: nat)
    requires
        decimal(first) == decimal(second),
    ensures
        first == second,
    decreases first,
{
    reveal_strlit("0123456789");
    lemma_decimal_digits(first);
    lemma_decimal_digits(second);
    if first < 10 {
        assert(second < 10);
        assert(decimal(first)[0] == digit_char(first as int));
        assert(decimal(second)[0] == digit_char(second as int));
    } else {
        assert(second >= 10);
        assert(decimal(first).drop_last() =~= decimal(first / 10));
        assert(decimal(second).drop_last() =~= decimal(second / 10));
        lemma_decimal_injective(first / 10, second / 10);
        assert(decimal(first).last() == digit_char((first % 10) as int));
        assert(decimal(second).last() == digit_char((second % 10) as int));
        assert(first % 10 == second % 10);
    }
}

/// Where two texts that each begin with a decimal number, followed by a
/// character that is no digit, are the same text, the numbers are the same
/// and so is what follows them.
pub proof fn lemma_decimal_unambiguous(first: nat, second: nat, first_rest: Seq<char>, second_rest: Seq<char>)
    requires
        decimal(first) + first_rest == decimal(second) + second_rest,
        first_rest.len() > 0 && !is_decimal_digit(first_rest[0]),
        second_rest.len() > 0 && !is_decimal_digit(second_rest[0]),
    ensures
        first == second,
        first_rest == second_rest,
{
    let digits = decimal(first);
    let other = decimal(second);
    let text = digits + first_rest;
    lemma_decimal_digits(first);
    lemma_decimal_digits(second);
    if digits.len() < other.len() {
        assert(text[digits.len() as int] == first_rest[0]);
        assert((other + second_rest)[digits.len() as int] == other[digits.len() as int]);
    }
    if other.len() < digits.len() {
        assert((other + second_rest)[other.len() as int] == second_rest[0]);
        assert(text[other.len() as int] == digits[other.len() as int]);
    }
    assert(digits.len() == other.len());
    assert(digits =~= text.subrange(0, digits.len() as int));
    assert(other =~= (other + second_rest).subrange(0, other.len() as int));
    assert(first_rest =~= text.skip(digits.len() as int));
    assert(second_rest =~= (other + second_rest).skip(other.len() as int));
    lemma_decimal_injective(first, second);
}

proof fn lemma_same_start(start: Seq<char>, first_rest: Seq<char>, second_rest: Seq<char>)
    requires
        start + first_rest == start + second_rest,
    ensures
        first_rest == second_rest,
{
    assert(first_rest =~= (start + first_rest).skip(start.len() as int));
    assert(second_rest =~= (start + second_rest).skip(start.len() as int));
}

/// The payload read from the left: each member, then all that follows it.
proof fn lemma_payload_nested(
    job_id_json: Seq<char>,
    input_hash_json: Seq<char>,
    output_hash_json: Seq<char>,
    worker_public_key_json: Seq<char>,
    timestamp: u64,
)
    ensures
        payload_text(job_id_json, input_hash_json, output_hash_json, worker_public_key_json, timestamp)
            == "{\"inputHash\":"@ + (input_hash_json + (",\"jobId\":"@ + (job_id_json + (",\"outputHash\":"@
            + (output_hash_json + (",\"timestamp\":"@ + (decimal(timestamp as nat) + (
        ",\"workerPublicKey\":"@ + (worker_public_key_json + "}"@))))))))),
{
    let nested = "{\"inputHash\":"@ + (input_hash_json + (",\"jobId\":"@ + (job_id_json + (
    ",\"outputHash\":"@ + (output_hash_json + (",\"timestamp\":"@ + (decimal(timestamp as nat) + (
    ",\"workerPublicKey\":"@ + (worker_public_key_json + "}"@)))))))));
    assert(payload_text(
        job_id_json,
        input_hash_json,
        output_hash_json,
        worker_public_key_json,
        timestamp,
    ) =~= nested);
}

/// Payloads are the same text only where all five fields are the same: the
/// payload of an attestation fixes the job, both hashes, the signer and the
/// time that it speaks of.
pub proof fn lemma_payload_injective(
    first_job_id: Seq<char>,
    first_input_hash: Seq<char>,
    first_output_hash: Seq<char>,
    first_worker_public_key: Seq<char>,
    first_timestamp: u64,
    second_job_id: Seq<char>,
    second_input_hash: Seq<char>,
    second_output_hash: Seq<char>,
    second_worker_public_key: Seq<char>,
    second_timestamp: u64,
)
    requires
        canonical_payload(
            first_job_id,
            first_input_hash,
            first_output_hash,
            first_worker_public_key,
            first_timestamp,
        ) == canonical_payload(
            second_job_id,
            second_input_hash,
            second_output_hash,
            second_worker_public_key,
            second_timestamp,
        ),
    ensures
        first_job_id == second_job_id,
        first_input_hash == second_input_hash,
        first_output_hash == second_output_hash,
        first_worker_public_key == second_worker_public_key,
        first_timestamp == second_timestamp,
{
    lemma_payload_nested(
        json_string(first_job_id),
        json_string(first_input_hash),
        json_string(first_output_hash),
        json_string(first_worker_public_key),
        first_timestamp,
    );
    lemma_payload_nested(
        json_string(second_job_id),
        json_string(second_input_hash),
        json_string(second_output_hash),
        json_string(second_worker_public_key),
        second_timestamp,
    );
    let first_key = json_string(first_worker_public_key) + "}"@;
    let second_key = json_string(second_worker_public_key) + "}"@;
    let first_key_member = ",\"workerPublicKey\":"@ + first_key;
    let second_key_member = ",\"workerPublicKey\":"@ + second_key;
    let first_time = decimal(first_timestamp as nat) + first_key_member;
    let second_time = decimal(second_timestamp as nat) + second_key_member;
    let first_time_member = ",\"timestamp\":"@ + first_time;
    let second_time_member = ",\"timestamp\":"@ + second_time;
    let first_output = json_string(first_output_hash) + first_time_member;
    let second_output = json_string(second_output_hash) + second_time_member;
    let first_output_member = ",\"outputHash\":"@ + first_output;
    let second_output_member = ",\"outputHash\":"@ + second_output;
    let first_job = json_string(first_job_id) + first_output_member;
    let second_job = json_string(second_job_id) + second_output_member;
    let first_job_member = ",\"jobId\":"@ + first_job;
    let second_job_member = ",\"jobId\":"@ + second_job;
    let first_input = json_string(first_input_hash) + first_job_member;
    let second_input = json_string(second_input_hash) + second_job_member;

    lemma_same_start("{\"inputHash\":"@, first_input, second_input);
    lemma_json_string_unambiguous(first_input_hash, second_input_hash, first_job_member, second_job_member);
    lemma_same_start(",\"jobId\":"@, first_job, second_job);
    lemma_json_string_unambiguous(first_job_id, second_job_id, first_output_member, second_output_member);
    lemma_same_start(",\"outputHash\":"@, first_output, second_output);
    lemma_json_string_unambiguous(first_output_hash, second_output_hash, first_time_member, second_time_member);
    lemma_same_start(",\"timestamp\":"@, first_time, second_time);
    assert(first_key_member[0] == ',' && second_key_member[0] == ',') by {
        reveal_strlit(",\"workerPublicKey\":");
    }
    lemma_decimal_unambiguous(
        first_timestamp as nat,
        second_timestamp as nat,
        first_key_member,
        second_key_member,
    );
    lemma_same_start(",\"workerPublicKey\":"@, first_key, second_key);
    lemma_json_string_unambiguous(first_worker_public_key, second_worker_public_key, "}"@, "}"@);
}

/// The bytes that are signed are well-formed UTF-8.
pub proof fn lemma_payload_bytes_valid(
    job_id: Seq<char>,
    input_hash: Seq<char>,
    output_hash: Seq<char>,
    worker_public_key: Seq<char>,
    timestamp: u64,
)
    ensures
        valid_utf8(
            encode_utf8(canonical_payload(job_id, input_hash, output_hash, worker_public_key, timestamp)),
        ),
{
    encode_utf8_valid_utf8(canonical_payload(job_id, input_hash, output_hash, worker_public_key, timestamp));
}

} // verus!
