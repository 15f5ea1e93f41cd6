use vstd::prelude::*;
use vstd::utf8::is_ascii_chars;

use crate::error::YouDlError;
use crate::models::{PlayerResponse, StreamFormat};

verus! {

/// serde_json's generic JSON document, opaque here: `json_parse` returns it
/// and `parse_stream_entry` reads one of its array elements.
#[verifier::external_type_specification]
#[verifier::external_body]
pub struct ExValue(serde_json::Value);

/// serde_json's parse error, opaque here: only its description is read.
#[verifier::external_type_specification]
#[verifier::external_body]
pub struct ExJsonError(serde_json::Error);

/// The value of the parameter `key` in the URL-encoded query string `body`:
/// the percent-decoded text of the first pair whose key matches, `None` when
/// no pair does. A function of the two texts alone.
pub uninterp spec fn query_field(body: Seq<char>, key: Seq<char>) -> Option<Seq<char>>;

/// Whether the text `q` is a readable metadata record: a JSON document
/// whose title is a string under `videoDetails`. A function of the text
/// alone, as are the three readers below.
pub uninterp spec fn json_valid(q: Seq<char>) -> bool;

/// The record's title, when `json_valid(q)`.
pub uninterp spec fn record_title(q: Seq<char>) -> Seq<char>;

/// The record's well-formed progressive stream entries (those carrying an
/// integral `itag`) in declaration order; a missing or non-array collection
/// reads as empty.
pub uninterp spec fn record_formats(q: Seq<char>) -> Seq<StreamFormat>;

/// The record's well-formed adaptive stream entries, likewise.
pub uninterp spec fn record_adaptive(q: Seq<char>) -> Seq<StreamFormat>;

/// Relies on qstring::QString: `from` splits the body on `&` into
/// percent-decoded key/value pairs, and `get` returns the value of the first
/// pair whose key equals the name; both depend on the texts alone. The body
/// must be ASCII: qstring's parser slices the text at fixed byte offsets and
/// panics where a segment starts with a multi-byte character.
#[verifier::external_body]
fn query_string_field(body: &str, key: &str) -> (r: Option<String>)
    requires
        body.is_ascii(),
    ensures
        r is Some <==> query_field(body@, key@) is Some,
        r matches Some(s) ==> (query_field(body@, key@) matches Some(q) && s@ == q),
{
    qstring::QString::from(body).get(key).map(|s| s.to_owned())
}

/// Relies on serde_json::from_str: parses the text as one JSON document,
/// returning the parse error when the text is not valid JSON.
#[verifier::external_body]
fn json_parse(s: &str) -> Result<serde_json::Value, serde_json::Error> {
    serde_json::from_str::<serde_json::Value>(s)
}

/// Relies on Display for serde_json::Error: describes the parse failure.
#[verifier::external_body]
fn json_error_text(e: &serde_json::Error) -> String {
    format!("{}", e)
}

/// Relies on serde_json::from_str, Value::pointer and Value::as_str: the
/// readable record's title — what `json_valid` and `record_title` name.
#[verifier::external_body]
fn parse_record_head(q: &str) -> (r: Option<String>)
    ensures
        r is Some <==> json_valid(q@),
        r matches Some(t) ==> t@ == record_title(q@),
{
    let v: serde_json::Value = serde_json::from_str(q).ok()?;
    Some(v.pointer("/videoDetails/title")?.as_str()?.to_owned())
}

/// Relies on serde_json::Value's get/as_str/as_u64 readers: one stream
/// entry's plain fields; `None` when the `itag` is missing or not an
/// integer; the cipher parameter under either of the host's two spellings.
#[verifier::external_body]
fn parse_stream_entry(e: &serde_json::Value) -> Option<StreamFormat> {
    Some(StreamFormat {
        itag: e.get("itag")?.as_u64()?,
        url: e.get("url").and_then(|u| u.as_str()).map(|s| s.to_owned()),
        signature_cipher: e.get("signatureCipher").or(e.get("cipher")).and_then(|u| u.as_str())
            .map(|s| s.to_owned()),
        quality_label: e.get("qualityLabel").and_then(|u| u.as_str()).unwrap_or("").to_owned(),
        mime_type: e.get("mimeType").and_then(|u| u.as_str()).unwrap_or("").to_owned(),
    })
}

/// Relies on serde_json::from_str, Value::pointer and Value::as_array, with
/// `parse_stream_entry` on each element: one of the record's two stream
/// collections — what `record_formats` and `record_adaptive` name.
#[verifier::external_body]
fn parse_record_streams(q: &str, adaptive: bool) -> (r: Vec<StreamFormat>)
    ensures
        !adaptive ==> r@ == record_formats(q@),
        adaptive ==> r@ == record_adaptive(q@),
{
    let path = if adaptive { "/streamingData/adaptiveFormats" } else { "/streamingData/formats" };
    let v = serde_json::from_str::<serde_json::Value>(q).ok();
    v.as_ref().and_then(|v| v.pointer(path)).and_then(|a| a.as_array())
        .map_or(Vec::new(), |arr| arr.iter().filter_map(parse_stream_entry).collect())
}

/// The host's metadata endpoint for an identifier: the identifier is passed
/// as the single query parameter.
pub open spec fn spec_metadata_url(id: Seq<char>) -> Seq<char> {
    "https://www.youtube.com/get_video_info?video_id="@ + id
}

/// The host's metadata endpoint for a video: the identifier is passed as the
/// single query parameter.
pub fn metadata_url(video_id: &str) -> (r: String)
    ensures
        r@ == spec_metadata_url(video_id@),
{
    let mut u = String::from_str("https://www.youtube.com/get_video_info?video_id=");
    u.append(video_id);
    u
}

fn invalid(detail: &str) -> (r: YouDlError)
    ensures
        r matches YouDlError::InvalidResponse(d) && d@ == detail@,
{
    YouDlError::InvalidResponse(String::from_str(detail))
}

/// Whether a body decodes: it is ASCII text, its `player_response` field is
/// present, and that field's text is a readable metadata record.
pub open spec fn body_decodes(body: Seq<char>) -> bool {
    &&& is_ascii_chars(body)
    &&& query_field(body, "player_response"@) matches Some(q) && json_valid(q)
}

/// Decodes the host's metadata envelope: the response body is a URL-encoded
/// query string whose `player_response` field carries a URL-encoded JSON
/// document describing the video's title and stream collections. The decode
/// succeeds exactly on ASCII bodies whose field is present and readable, and
/// then returns that record's title and stream lists (stream entries
/// without an integral `itag` are dropped); every failure — non-ASCII text,
/// field absent, malformed JSON, or a record without a title — is reported
/// uniformly as `InvalidResponse`, the cause preserved in the detail text.
/// A record that declares zero streams is a valid result, not an error.
pub fn decode_player_response(body: &str) -> (r: Result<PlayerResponse, YouDlError>)
    ensures
        r is Ok <==> body_decodes(body@),
        r matches Err(e) ==> e matches YouDlError::InvalidResponse(_),
        is_ascii_chars(body@) ==> (query_field(body@, "player_response"@) matches Some(q) ==> (
        json_valid(q) ==> (r matches Ok(p) && p.title@ == record_title(q) && p.formats@
            == record_formats(q) && p.adaptive_formats@ == record_adaptive(q)))),
        (is_ascii_chars(body@) && query_field(body@, "player_response"@) is None) ==> (r
            matches Err(e) && e matches YouDlError::InvalidResponse(d) && d@
            == "missing value for player_response"@),
{
    if !body.is_ascii() {
        return Err(invalid("metadata response is not ascii text"));
    }
    let field = match query_string_field(body, "player_response") {
        Some(s) => s,
        None => {
            return Err(invalid("missing value for player_response"));
        },
    };
    match parse_record_head(field.as_str()) {
        Some(title) => {
            let formats = parse_record_streams(field.as_str(), false);
            let adaptive_formats = parse_record_streams(field.as_str(), true);
            Ok(PlayerResponse { title, formats, adaptive_formats })
        },
        None => {
            // Recover the cause for the detail text: either the JSON itself
            // is malformed, or it parses but misses the required title.
            match json_parse(field.as_str()) {
                Err(e) => Err(YouDlError::InvalidResponse(json_error_text(&e))),
                Ok(_) => Err(invalid("metadata record misses a required field")),
            }
        },
    }
}

} // verus!
