use vstd::prelude::*;
use vstd::utf8::{decode_utf8, decode_utf8_encode_utf8, encode_utf8, valid_utf8};

verus! {

/// The message prefix for a transport failure of the blocking fetch.
pub open spec fn transport_failure_prefix() -> Seq<char> {
    "HTTP request failed: "@
}

/// The message prefix for a response body that is not valid UTF-8.
pub open spec fn decode_failure_prefix() -> Seq<char> {
    "bytes should be valid utf8: "@
}

/// Relies on `String::from_utf8` (std): it returns `Ok` exactly when the
/// bytes are a valid UTF-8 encoding, and the returned string then holds
/// exactly those bytes, that is, their decoded characters. The error value
/// carries std's description of the failure.
#[verifier::external_body]
pub(crate) fn string_from_utf8(bytes: Vec<u8>) -> (r: Result<String, String>)
    ensures
        r is Ok <==> valid_utf8(bytes@),
        r matches Ok(s) ==> s@ == decode_utf8(bytes@),
{
    match String::from_utf8(bytes) {
        Ok(s) => Ok(s),
        Err(e) => Err(e.to_string()),
    }
}

/// Reads a fetched body for the raw-text design: the body's bytes as UTF-8
/// text, verbatim, or the exact decode-failure message. On the happy path
/// the text is the body unmodified: re-encoding it gives the bytes back.
pub fn raw_fetch_text(body: Vec<u8>) -> (r: Result<String, String>)
    ensures
        r is Ok <==> valid_utf8(body@),
        r matches Ok(s) ==> s@ == decode_utf8(body@) && encode_utf8(s@) == body@,
        r matches Err(m) ==> (exists|d: Seq<char>| m@ == decode_failure_prefix() + d),
{
    let ghost body_view = body@;
    match string_from_utf8(body) {
        Ok(s) => {
            proof {
                decode_utf8_encode_utf8(body_view);
            }
            Ok(s)
        },
        Err(d) => {
            let mut m = String::from_str("bytes should be valid utf8: ");
            m.append(d.as_str());
            proof {
                assert(m@ == decode_failure_prefix() + d@);
            }
            Err(m)
        },
    }
}

/// The blocking fetch's result, from the transport's outcome: a transport
/// failure becomes the exact "HTTP request failed" message, and a received
/// body is read as raw UTF-8 text, verbatim.
pub fn sync_fetch_result(transport: Result<Vec<u8>, String>) -> (r: Result<String, String>)
    ensures
        transport matches Err(d) ==> (r matches Err(m) && m@ == transport_failure_prefix() + d@),
        transport matches Ok(body) ==> (r is Ok <==> valid_utf8(body@)),
        transport matches Ok(body) ==> (r matches Ok(s) ==> s@ == decode_utf8(body@)
            && encode_utf8(s@) == body@),
        transport matches Ok(body) ==> (r matches Err(m) ==> (exists|d: Seq<char>|
            m@ == decode_failure_prefix() + d)),
{
    match transport {
        Ok(body) => raw_fetch_text(body),
        Err(d) => {
            let mut m = String::from_str("HTTP request failed: ");
            m.append(d.as_str());
            Err(m)
        },
    }
}

} // verus!
