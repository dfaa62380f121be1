//! JSON at the filter's two wire boundaries.
//!
//! Outbound, the authorization request `{"token":...,"path":...}` is framed
//! by verified code: the exact bytes produced are pinned down by
//! `spec_auth_request`. Inbound, fields are read out of backend responses
//! and out of the configuration document through `serde_json`, behind
//! trusted wrappers whose results are named by uninterpreted spec
//! functions; everything decided from those results is verified.

use vstd::prelude::*;

verus! {

// ---------------------------------------------------------------------
// Named results of the trusted serde_json extractions.
// ---------------------------------------------------------------------
/// The integer `status` field of `body`, when `body` parses as JSON and
/// holds one; what `serde_json` reads out of the bytes.
pub uninterp spec fn spec_status_field(body: Seq<u8>) -> Option<u64>;

/// Whether `doc` parses as a JSON object.
pub uninterp spec fn spec_is_json_object(doc: Seq<u8>) -> bool;

/// The string field under `key` in the JSON object `doc`, if any.
pub uninterp spec fn spec_string_field(doc: Seq<u8>, key: Seq<char>) -> Option<Seq<char>>;

/// The unsigned integer field under `key` in the JSON object `doc`, if any.
pub uninterp spec fn spec_u64_field(doc: Seq<u8>, key: Seq<char>) -> Option<u64>;

/// Relies on `serde_json::from_slice::<Value>`, `Value::get` and
/// `Value::as_u64`: reads the integer `status` field of a JSON body;
/// `None` on unparsable input, a missing field, or a non-integer value.
/// The result is a function of the bytes alone.
#[verifier::external_body]
pub fn extract_status_field(body: &[u8]) -> (r: Option<u64>)
    ensures
        r == spec_status_field(body@),
{
    serde_json::from_slice::<serde_json::Value>(body).ok().and_then(
        |v| v.get("status").and_then(|s| s.as_u64()),
    )
}

/// Relies on `serde_json::from_slice::<Value>` and `Value::is_object`:
/// whether the bytes parse as a JSON object. The result is a function of
/// the bytes alone.
#[verifier::external_body]
pub fn json_doc_is_object(doc: &[u8]) -> (r: bool)
    ensures
        r == spec_is_json_object(doc@),
{
    serde_json::from_slice::<serde_json::Value>(doc).map(|v| v.is_object()).unwrap_or(false)
}

/// Relies on `serde_json::from_slice::<Value>`, `Value::get`,
/// `Value::as_str` and `str::to_owned`: reads the string field under
/// `key`; `None` on unparsable input, a missing field, or a non-string
/// value. The result is a function of the bytes and the key alone.
#[verifier::external_body]
pub fn extract_string_field(doc: &[u8], key: &str) -> (r: Option<String>)
    ensures
        match r {
            Some(s) => spec_string_field(doc@, key@) == Some(s@),
            None => spec_string_field(doc@, key@) is None,
        },
{
    serde_json::from_slice::<serde_json::Value>(doc).ok().and_then(
        |v| v.get(key).and_then(|f| f.as_str()).map(|s| s.to_owned()),
    )
}

/// Relies on `serde_json::from_slice::<Value>`, `Value::get` and
/// `Value::as_u64`: reads the unsigned integer field under `key`; `None`
/// on unparsable input, a missing field, or a non-integer value. The
/// result is a function of the bytes and the key alone.
#[verifier::external_body]
pub fn extract_u64_field(doc: &[u8], key: &str) -> (r: Option<u64>)
    ensures
        r == spec_u64_field(doc@, key@),
{
    serde_json::from_slice::<serde_json::Value>(doc).ok().and_then(
        |v| v.get(key).and_then(|f| f.as_u64()),
    )
}

// ---------------------------------------------------------------------
// Verified framing of the authorization request body.
// ---------------------------------------------------------------------
/// The ASCII hexadecimal digit for `n < 16`, lower case.
pub open spec fn spec_hex_digit(n: u8) -> u8 {
    if n < 10 {
        (0x30 + n) as u8
    } else {
        (0x57 + n) as u8
    }
}

/// JSON string escaping of one byte: `"` and `\` get a backslash, control
/// bytes become `\u00XX`, everything else passes through.
pub open spec fn spec_escape_byte(b: u8) -> Seq<u8> {
    if b == 0x22 {
        seq![0x5cu8, 0x22u8]
    } else if b == 0x5c {
        seq![0x5cu8, 0x5cu8]
    } else if b < 0x20 {
        seq![0x5cu8, 0x75u8, 0x30u8, 0x30u8, spec_hex_digit(b / 16), spec_hex_digit(b % 16)]
    } else {
        seq![b]
    }
}

/// JSON string escaping of a byte string, byte after byte.
pub open spec fn spec_escape_bytes(s: Seq<u8>) -> Seq<u8>
    decreases s.len(),
{
    if s.len() == 0 {
        Seq::empty()
    } else {
        spec_escape_byte(s[0]) + spec_escape_bytes(s.drop_first())
    }
}

/// The bytes of `{"token":"`.
pub open spec fn spec_req_prefix() -> Seq<u8> {
    seq![0x7bu8, 0x22u8, 0x74u8, 0x6fu8, 0x6bu8, 0x65u8, 0x6eu8, 0x22u8, 0x3au8, 0x22u8]
}

/// The bytes of `","path":"`.
pub open spec fn spec_req_middle() -> Seq<u8> {
    seq![0x22u8, 0x2cu8, 0x22u8, 0x70u8, 0x61u8, 0x74u8, 0x68u8, 0x22u8, 0x3au8, 0x22u8]
}

/// The bytes of `"}`.
pub open spec fn spec_req_suffix() -> Seq<u8> {
    seq![0x22u8, 0x7du8]
}

/// The exact body of an authorization call for `token` and `path`: the
/// JSON object `{"token":<token>,"path":<path>}` with both values written
/// as escaped JSON strings.
pub open spec fn spec_auth_request(token: Seq<u8>, path: Seq<u8>) -> Seq<u8> {
    spec_req_prefix() + spec_escape_bytes(token) + spec_req_middle() + spec_escape_bytes(path)
        + spec_req_suffix()
}

/// Escaping distributes over appending one byte.
proof fn lemma_escape_bytes_push(s: Seq<u8>, b: u8)
    ensures
        spec_escape_bytes(s.push(b)) == spec_escape_bytes(s) + spec_escape_byte(b),
    decreases s.len(),
{
    if s.len() == 0 {
        assert(s.push(b)[0] == b);
        assert(s.push(b).drop_first() =~= Seq::<u8>::empty());
        assert(spec_escape_bytes(Seq::<u8>::empty()) == Seq::<u8>::empty());
        assert(spec_escape_bytes(s.push(b)) == spec_escape_byte(b) + Seq::<u8>::empty());
        assert(spec_escape_byte(b) + Seq::<u8>::empty() =~= spec_escape_byte(b));
        assert(spec_escape_bytes(s) + spec_escape_byte(b) =~= spec_escape_byte(b));
    } else {
        assert(s.push(b)[0] == s[0]);
        assert(s.push(b).drop_first() =~= s.drop_first().push(b));
        lemma_escape_bytes_push(s.drop_first(), b);
        assert(spec_escape_bytes(s.push(b)) == spec_escape_byte(s[0]) + (spec_escape_bytes(
            s.drop_first(),
        ) + spec_escape_byte(b)));
        assert(spec_escape_byte(s[0]) + (spec_escape_bytes(s.drop_first()) + spec_escape_byte(b))
            =~= (spec_escape_byte(s[0]) + spec_escape_bytes(s.drop_first())) + spec_escape_byte(
            b,
        ));
        assert(spec_escape_bytes(s) == spec_escape_byte(s[0]) + spec_escape_bytes(s.drop_first()));
    }
}

/// Appends the JSON string escaping of `s` to `out`.
fn append_escaped(out: &mut Vec<u8>, s: &[u8])
    ensures
        final(out)@ == old(out)@ + spec_escape_bytes(s@),
{
    let ghost start = out@;
    let mut i: usize = 0;
    assert(s@.take(0) =~= Seq::<u8>::empty());
    assert(out@ =~= start + spec_escape_bytes(s@.take(0)));
    while i < s.len()
        invariant
            0 <= i <= s@.len(),
            out@ == start + spec_escape_bytes(s@.take(i as int)),
        decreases s@.len() - i,
    {
        let b = s[i];
        let ghost done = s@.take(i as int);
        if b == 0x22 {
            out.push(0x5c);
            out.push(0x22);
        } else if b == 0x5c {
            out.push(0x5c);
            out.push(0x5c);
        } else if b < 0x20 {
            out.push(0x5c);
            out.push(0x75);
            out.push(0x30);
            out.push(0x30);
            let hi = b / 16;
            let lo = b % 16;
            out.push(if hi < 10 { 0x30 + hi } else { 0x57 + hi });
            out.push(if lo < 10 { 0x30 + lo } else { 0x57 + lo });
        } else {
            out.push(b);
        }
        proof {
            lemma_escape_bytes_push(done, b);
            assert(s@.take(i + 1) =~= done.push(b));
            assert(out@ =~= start + (spec_escape_bytes(done) + spec_escape_byte(b)));
        }
        i = i + 1;
    }
    assert(s@.take(s@.len() as int) =~= s@);
}

/// Builds the authorization request body for `token` and `path`.
pub fn encode_auth_request(token: &[u8], path: &[u8]) -> (out: Vec<u8>)
    ensures
        out@ == spec_auth_request(token@, path@),
{
    let mut out: Vec<u8> = Vec::new();
    out.push(0x7b);
    out.push(0x22);
    out.push(0x74);
    out.push(0x6f);
    out.push(0x6b);
    out.push(0x65);
    out.push(0x6e);
    out.push(0x22);
    out.push(0x3a);
    out.push(0x22);
    assert(out@ =~= spec_req_prefix());
    append_escaped(&mut out, token);
    out.push(0x22);
    out.push(0x2c);
    out.push(0x22);
    out.push(0x70);
    out.push(0x61);
    out.push(0x74);
    out.push(0x68);
    out.push(0x22);
    out.push(0x3a);
    out.push(0x22);
    assert(out@ =~= (spec_req_prefix() + spec_escape_bytes(token@)) + spec_req_middle());
    append_escaped(&mut out, path);
    out.push(0x22);
    out.push(0x7d);
    assert(out@ =~= spec_req_prefix() + spec_escape_bytes(token@) + spec_req_middle()
        + spec_escape_bytes(path@) + spec_req_suffix());
    out
}

} // verus!
