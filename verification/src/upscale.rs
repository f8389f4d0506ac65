use vstd::prelude::*;
use vstd::string::*;

use crate::codec::{decode_image, decoded_image, encode_png, png_encoding};
use crate::error::Error;
use crate::json::{json_array_len, json_get, json_index, json_str, parse_json};
use crate::json::{json_parsing, json_tree, JsonTree};

verus! {

#[verifier::external_type_specification]
#[verifier::external_body]
pub struct ExBase64DecodeError(base64::DecodeError);

/// The base64 encoding of a byte sequence, a function of the bytes alone.
pub uninterp spec fn base64_encoding(bytes: Seq<u8>) -> Seq<char>;

/// The bytes that a base64 string denotes, or `None` when the string is not
/// valid base64; a function of the string alone.
pub uninterp spec fn base64_decoding(s: Seq<char>) -> Option<Seq<u8>>;

/// Relies on the standard engine's encode of the base64 crate: the encoding
/// is a function of the bytes alone, and decoding it yields the bytes again.
#[verifier::external_body]
fn base64_encode(bytes: &[u8]) -> (r: String)
    ensures
        r@ == base64_encoding(bytes@),
        base64_decoding(r@) == Some(bytes@),
{
    base64::Engine::encode(&base64::engine::general_purpose::STANDARD, bytes)
}

/// Relies on the standard engine's decode of the base64 crate: whether a
/// string is valid base64, and the bytes it denotes, are functions of the
/// string alone.
#[verifier::external_body]
fn base64_decode(s: &str) -> (r: Result<Vec<u8>, base64::DecodeError>)
    ensures
        (r matches Ok(b) ==> base64_decoding(s@) == Some(b@)),
        (r matches Err(_) ==> base64_decoding(s@) is None),
{
    base64::Engine::decode(&base64::engine::general_purpose::STANDARD, s)
}

/// The member of a response part that carries the embedded image, probed
/// under the known field-name spellings in order. The remote service has
/// been seen to use both spellings across versions; adding a third is one
/// more branch here and in the walker below.
pub open spec fn spec_inline_field(part: JsonTree) -> Option<JsonTree> {
    match part {
        JsonTree::Object(m) => if m.dom().contains("inline_data"@) {
            Some(m["inline_data"@])
        } else if m.dom().contains("inlineData"@) {
            Some(m["inlineData"@])
        } else {
            None
        },
        _ => None,
    }
}

/// The first part of the sequence that exposes an embedded-image field.
pub open spec fn spec_first_inline(parts: Seq<JsonTree>) -> Option<JsonTree>
    decreases parts.len(),
{
    if parts.len() == 0 {
        None
    } else if spec_inline_field(parts[0]) is Some {
        spec_inline_field(parts[0])
    } else {
        spec_first_inline(parts.drop_first())
    }
}

/// The data string of an embedded-image member.
pub open spec fn spec_inline_payload(inline: JsonTree) -> Result<Seq<char>, Seq<char>> {
    match inline {
        JsonTree::Object(m) => if m.dom().contains("data"@) && m["data"@] is Text {
            Ok(m["data"@]->Text_0)
        } else {
            Err("data"@)
        },
        _ => Err("data"@),
    }
}

/// The payload of the parts array: the data string of the first part that
/// exposes an embedded-image field.
pub open spec fn spec_parts_payload(parts_value: JsonTree) -> Result<Seq<char>, Seq<char>> {
    match parts_value {
        JsonTree::Array(parts) => match spec_first_inline(parts) {
            Some(inline) => spec_inline_payload(inline),
            None => Err("inline_data"@),
        },
        _ => Err("parts"@),
    }
}

/// The payload of a candidate's content.
pub open spec fn spec_content_payload(content: JsonTree) -> Result<Seq<char>, Seq<char>> {
    match content {
        JsonTree::Object(m) => if m.dom().contains("parts"@) {
            spec_parts_payload(m["parts"@])
        } else {
            Err("parts"@)
        },
        _ => Err("parts"@),
    }
}

/// The payload of one candidate.
pub open spec fn spec_candidate_payload(cand: JsonTree) -> Result<Seq<char>, Seq<char>> {
    match cand {
        JsonTree::Object(m) => if m.dom().contains("content"@) {
            spec_content_payload(m["content"@])
        } else {
            Err("content"@)
        },
        _ => Err("content"@),
    }
}

/// The payload of the candidates array: the payload of the first candidate.
pub open spec fn spec_candidates_payload(c: JsonTree) -> Result<Seq<char>, Seq<char>> {
    match c {
        JsonTree::Array(cands) => if cands.len() > 0 {
            spec_candidate_payload(cands[0])
        } else {
            Err("candidates[0]"@)
        },
        _ => Err("candidates[0]"@),
    }
}

/// The fixed walk over a response document: first candidate, its content,
/// its parts, the first part exposing an embedded-image field under either
/// known spelling, that field's data string. `Err` names the missing level.
pub open spec fn spec_upscale_payload(t: JsonTree) -> Result<Seq<char>, Seq<char>> {
    match t {
        JsonTree::Object(m) => if m.dom().contains("candidates"@) {
            spec_candidates_payload(m["candidates"@])
        } else {
            Err("candidates"@)
        },
        _ => Err("candidates"@),
    }
}

/// Both observed spellings of the embedded-image field are read alike: a
/// part that carries a member under the primary spelling exposes that
/// member, and a part that carries it only under the alternate spelling
/// exposes the very same member.
pub proof fn lemma_inline_spellings_equivalent(m: Map<Seq<char>, JsonTree>, v: JsonTree)
    ensures
        spec_inline_field(JsonTree::Object(m.insert("inline_data"@, v))) == Some(v),
        !m.dom().contains("inline_data"@) ==> spec_inline_field(
            JsonTree::Object(m.insert("inlineData"@, v)),
        ) == Some(v),
{
    reveal_strlit("inline_data");
    reveal_strlit("inlineData");
    assert("inline_data"@.len() == 11);
    assert("inlineData"@.len() == 10);
}

/// A malformed-response failure that names the missing path segment and
/// keeps the whole raw body for diagnostics.
fn malformed(segment: &str, body: &str) -> (e: Error)
    ensures
        e is MalformedResponse,
        (e->MalformedResponse_segment)@ == segment@,
        (e->MalformedResponse_body)@ == body@,
{
    Error::MalformedResponse {
        segment: String::from_str(segment),
        body: String::from_str(body),
    }
}

/// The embedded-image member of a part, probed under the known spellings in
/// order.
fn inline_field<'a>(part: &'a serde_json::Value) -> (r: Option<&'a serde_json::Value>)
    ensures
        (r matches Some(x) ==> spec_inline_field(json_tree(*part)) == Some(json_tree(*x))),
        (r is None ==> spec_inline_field(json_tree(*part)) is None),
{
    match json_get(part, "inline_data") {
        Some(v) => Some(v),
        None => json_get(part, "inlineData"),
    }
}

/// Walks the fixed path through a parsed response document and hands back
/// the embedded base64 payload, or the malformed-response failure naming the
/// first missing level, with the raw body kept for diagnostics.
pub fn extract_payload(root: &serde_json::Value, body: &str) -> (r: Result<String, Error>)
    ensures
        (r matches Ok(data) ==> spec_upscale_payload(json_tree(*root)) is Ok
            && spec_upscale_payload(json_tree(*root))->Ok_0 == data@),
        (r is Err ==> r->Err_0 is MalformedResponse && spec_upscale_payload(json_tree(*root))
            is Err && (r->Err_0->MalformedResponse_segment)@ == spec_upscale_payload(
            json_tree(*root),
        )->Err_0 && (r->Err_0->MalformedResponse_body)@ == body@),
{
    let candidates = match json_get(root, "candidates") {
        Some(c) => c,
        None => {
            return Err(malformed("candidates", body));
        },
    };
    let cand = match json_index(candidates, 0) {
        Some(c) => c,
        None => {
            return Err(malformed("candidates[0]", body));
        },
    };
    let content = match json_get(cand, "content") {
        Some(c) => c,
        None => {
            return Err(malformed("content", body));
        },
    };
    let parts_val = match json_get(content, "parts") {
        Some(p) => p,
        None => {
            return Err(malformed("parts", body));
        },
    };
    let n = match json_array_len(parts_val) {
        Some(n) => n,
        None => {
            return Err(malformed("parts", body));
        },
    };
    let ghost parts: Seq<JsonTree> = json_tree(*parts_val)->Array_0;
    let mut i: usize = 0;
    let mut found: Option<&serde_json::Value> = None;
    proof {
        assert(parts.skip(0) =~= parts);
    }
    while i < n && found.is_none()
        invariant
            json_tree(*parts_val) is Array,
            parts == json_tree(*parts_val)->Array_0,
            n == parts.len(),
            i <= n,
            found matches Some(x) ==> spec_first_inline(parts) == Some(json_tree(*x)),
            found is None ==> spec_first_inline(parts) == spec_first_inline(
                parts.skip(i as int),
            ),
        decreases n - i,
    {
        let part = match json_index(parts_val, i) {
            Some(p) => p,
            None => vstd::pervasive::unreached(),
        };
        proof {
            assert(parts.skip(i as int).len() > 0);
            assert(parts.skip(i as int)[0] == parts[i as int]);
            assert(parts.skip(i as int).drop_first() =~= parts.skip(i as int + 1));
        }
        match inline_field(part) {
            Some(v) => {
                found = Some(v);
            },
            None => {
            },
        }
        i = i + 1;
    }
    let inline = match found {
        Some(v) => v,
        None => {
            proof {
                assert(parts.skip(n as int) =~= Seq::<JsonTree>::empty());
            }
            return Err(malformed("inline_data", body));
        },
    };
    let data_val = match json_get(inline, "data") {
        Some(d) => d,
        None => {
            return Err(malformed("data", body));
        },
    };
    match json_str(data_val) {
        Some(s) => Ok(s),
        None => Err(malformed("data", body)),
    }
}

/// The fixed-shape request document of an upscale call, built fresh per
/// call: one text part with the instruction, one embedded-image part with
/// the payload and its mime-type tag, and a generation-configuration block
/// naming the target resolution tier.
pub struct ApiRequestBody {
    /// The instruction text part.
    pub prompt: String,
    /// The mime-type tag of the embedded payload.
    pub mime_type: String,
    /// The base64 payload: the PNG re-encoding of the caller's image.
    pub data: String,
    /// The requested target resolution tier.
    pub image_size: String,
}

/// Builds the request document around an already PNG-encoded image.
pub fn build_upscale_request(png_bytes: &[u8]) -> (r: ApiRequestBody)
    ensures
        r.prompt@ == "Upscale this image."@,
        r.mime_type@ == "image/png"@,
        r.data@ == base64_encoding(png_bytes@),
        r.image_size@ == "2K"@,
{
    ApiRequestBody {
        prompt: String::from_str("Upscale this image."),
        mime_type: String::from_str("image/png"),
        data: base64_encode(png_bytes),
        image_size: String::from_str("2K"),
    }
}

/// Decodes the caller's image, re-encodes it to the lossless intermediate
/// format and wraps its base64 encoding in the fixed-shape request document.
/// It succeeds exactly when the input decodes and the lossless encoder
/// accepts the decoded pixels.
pub fn prepare_upscale_request(input_bytes: &[u8]) -> (r: Result<ApiRequestBody, Error>)
    ensures
        r is Ok <==> decoded_image(input_bytes@) is Some && png_encoding(
            decoded_image(input_bytes@)->Some_0,
        ) is Some,
        (r matches Ok(req) ==> req.data@ == base64_encoding(
            png_encoding(decoded_image(input_bytes@)->Some_0)->Some_0,
        ) && req.mime_type@ == "image/png"@ && req.image_size@ == "2K"@ && req.prompt@
            == "Upscale this image."@),
        (r matches Err(Error::DecodeError) <==> decoded_image(input_bytes@) is None),
        (r matches Err(Error::EncodeError) <==> decoded_image(input_bytes@) is Some
            && png_encoding(decoded_image(input_bytes@)->Some_0) is None),
        (r matches Err(e) ==> e is DecodeError || e is EncodeError),
{
    let img = match decode_image(input_bytes) {
        Ok(img) => img,
        Err(_) => {
            return Err(Error::DecodeError);
        },
    };
    let png = match encode_png(&img) {
        Ok(png) => png,
        Err(_) => {
            return Err(Error::EncodeError);
        },
    };
    Ok(build_upscale_request(png.as_slice()))
}

/// Decides what an upscale call returns once the blocking POST has come
/// back. A non-success status is an api failure carrying the status and the
/// whole raw body; an unparseable or unexpectedly shaped body is a
/// malformed-response failure naming the missing level; a payload that is
/// not valid base64 is a base64 failure; otherwise the decoded payload bytes
/// are the result.
pub fn parse_upscale_response(status: u16, body: &str) -> (r: Result<Vec<u8>, Error>)
    ensures
        (r matches Ok(bytes) ==> 200 <= status < 300 && json_parsing(body@) is Some
            && spec_upscale_payload(json_parsing(body@)->0) is Ok && base64_decoding(
            spec_upscale_payload(json_parsing(body@)->0)->Ok_0,
        ) == Some(bytes@)),
        ((r is Err && r->Err_0 is ApiError) <==> !(200 <= status < 300)),
        (r is Err && r->Err_0 is ApiError ==> r->Err_0->ApiError_status == status && (
        r->Err_0->ApiError_body)@ == body@),
        (r is Err && r->Err_0 is MalformedResponse ==> 200 <= status < 300 && (
        r->Err_0->MalformedResponse_body)@ == body@ && ((json_parsing(body@) is None && (
        r->Err_0->MalformedResponse_segment)@ == "body"@) || (json_parsing(body@) is Some
            && spec_upscale_payload(json_parsing(body@)->0) is Err && spec_upscale_payload(
            json_parsing(body@)->0,
        )->Err_0 == (r->Err_0->MalformedResponse_segment)@))),
        (r is Err && r->Err_0 is Base64Error ==> 200 <= status < 300 && json_parsing(body@)
            is Some && spec_upscale_payload(json_parsing(body@)->0) is Ok && base64_decoding(
            spec_upscale_payload(json_parsing(body@)->0)->Ok_0,
        ) is None),
        (r is Err ==> r->Err_0 is ApiError || r->Err_0 is MalformedResponse || r->Err_0
            is Base64Error),
{
    if !(status >= 200 && status < 300) {
        return Err(Error::ApiError { status, body: String::from_str(body) });
    }
    let root = match parse_json(body) {
        Some(v) => v,
        None => {
            return Err(malformed("body", body));
        },
    };
    let payload = match extract_payload(&root, body) {
        Ok(s) => s,
        Err(e) => {
            return Err(e);
        },
    };
    match base64_decode(payload.as_str()) {
        Ok(bytes) => Ok(bytes),
        Err(_) => Err(Error::Base64Error),
    }
}

} // verus!
