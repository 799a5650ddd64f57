//! The response transcoder: turns the accumulated body of an external HTTP
//! response into the external JSON document re-rendered compactly, or a
//! classified decode failure carrying the parser's message in full. The
//! parsing and re-rendering are serde_json's, behind one trusted item whose
//! outcome is a function of the body bytes alone; everything around the call
//! is verified.

use vstd::prelude::*;

verus! {

/// Whether a byte sequence is a well-formed JSON document in the sense of
/// serde_json's parser. Decoding depends on the bytes alone, so the outcome
/// of a decode attempt carries this name.
pub uninterp spec fn json_wf(b: Seq<u8>) -> bool;

/// The compact re-rendering of the JSON document held in a byte sequence:
/// what serde_json's serializer prints for the value its parser decodes.
/// Meaningful only where `json_wf` holds.
pub uninterp spec fn json_reencoded(b: Seq<u8>) -> Seq<char>;

/// The parser's displayed message for a byte sequence that is not
/// well-formed JSON. Meaningful only where `json_wf` fails.
pub uninterp spec fn json_decode_detail(b: Seq<u8>) -> Seq<char>;

/// Relies on serde_json::from_slice and serde_json::to_string: parses the
/// bytes as one JSON document and renders the decoded value back to compact
/// text, or reports the parse failure as its displayed text. Both calls
/// depend on the bytes alone, so the success, the re-rendered text and the
/// failure text carry the three names above. to_string cannot fail on a
/// value the parser produced (all its map keys are strings), so the
/// defaulted arm is unreachable.
#[verifier::external_body]
fn reencode_json(b: &Vec<u8>) -> (r: Result<String, String>)
    ensures
        r is Ok <==> json_wf(b@),
        r matches Ok(s) ==> s@ == json_reencoded(b@),
        r matches Err(t) ==> t@ == json_decode_detail(b@),
{
    match serde_json::from_slice::<serde_json::Value>(b.as_slice()) {
        Ok(v) => Ok(serde_json::to_string(&v).unwrap_or_default()),
        Err(e) => Err(format!("{}", e)),
    }
}

/// Decode an accumulated response body as JSON and hand back the decoded
/// document re-rendered compactly — the relay returns the external document
/// itself, untransformed. A malformed payload yields the detailed log line
/// instead, carrying the parser's own message in full.
pub fn transcode(body: &Vec<u8>) -> (r: Result<String, String>)
    ensures
        r is Ok <==> json_wf(body@),
        r matches Ok(s) ==> s@ == json_reencoded(body@),
        r matches Err(log) ==> log@ == "Error parsing JSON from remote host: "@
            + json_decode_detail(body@),
{
    match reencode_json(body) {
        Ok(s) => Ok(s),
        Err(text) => Err(
            crate::strutil::concat_str("Error parsing JSON from remote host: ", text.as_str()),
        ),
    }
}

} // verus!
