//! Loading a graph from its stored form.
//!
//! The configuration store holds, per service, a JSON payload whose
//! `rules_packed` field is the graph: `raw:` followed by the base64 of the
//! graph's JSON text, or the base64 of the gzip of that text. The host reads
//! the store; this module unpacks what it found and checks it.

use crate::auth::{rules_hash, rules_hash_of};
use crate::json::{
    check_record, field_slot, get, is_record, lemma_lookup_steps, lemma_member_at, make_member,
    make_object, member, member_view, read_text, slot, text_field, with_member, write_text, Json,
    JsonView, Member,
};
use crate::text::{
    chars_of, copy_string, has_prefix, opt_str, slice_of, starts_with, string_from_chars,
};
use crate::types::{
    encode_graph_payload, law_graph_payload_round_trip, parse_graph_payload, GraphPayload,
    GraphPayloadView,
};
use vstd::prelude::*;
use vstd::utf8::{decode_utf8, valid_utf8};

verus! {

// ---------------------------------------------------------------------------
// Trusted items: base64, gzip, UTF-8 and JSON text
// ---------------------------------------------------------------------------

/// The error of `base64`'s decoder.
#[verifier::external_type_specification]
#[verifier::external_body]
pub struct ExDecodeError(base64::DecodeError);

/// The error of `std`'s readers.
#[verifier::external_type_specification]
#[verifier::external_body]
pub struct ExIoError(std::io::Error);

/// The error of `serde_json`.
#[verifier::external_type_specification]
#[verifier::external_body]
pub struct ExJsonError(serde_json::Error);

/// A JSON value of `serde_json`.
#[verifier::external_type_specification]
#[verifier::external_body]
pub struct ExValue(serde_json::Value);

/// The bytes that a text in standard base64, with padding, stands for; `None`
/// where the text is no such encoding.
pub uninterp spec fn base64_decoded(text: Seq<char>) -> Option<Seq<u8>>;

/// `base64::engine::general_purpose::STANDARD.decode`: the bytes that the
/// text encodes, or the decoder's error. The result is named
/// [`base64_decoded`].
#[verifier::external_body]
fn base64_decode(text: &str) -> (r: Result<Vec<u8>, base64::DecodeError>)
    ensures
        match r {
            Ok(bytes) => base64_decoded(text@) == Some(bytes@),
            Err(_) => base64_decoded(text@) is None,
        },
{
    base64::Engine::decode(&base64::engine::general_purpose::STANDARD, text)
}

/// The text that a gzip stream unpacks to; `None` where the bytes are no gzip
/// stream or what they unpack to is no UTF-8 text.
pub uninterp spec fn gunzipped(bytes: Seq<u8>) -> Option<Seq<char>>;

/// `flate2::read::GzDecoder::new` over the bytes, read to its end as a
/// string: the text that the stream unpacks to, or the reader's error. The
/// result is named [`gunzipped`].
#[verifier::external_body]
fn gunzip(bytes: &Vec<u8>) -> (r: Result<String, std::io::Error>)
    ensures
        match r {
            Ok(text) => gunzipped(bytes@) == Some(text@),
            Err(_) => gunzipped(bytes@) is None,
        },
{
    let mut decoder = flate2::read::GzDecoder::new(&bytes[..]);
    let mut text = String::new();
    std::io::Read::read_to_string(&mut decoder, &mut text)?;
    Ok(text)
}

/// `String::from_utf8`, its error wrapped in an `std::io::Error` of kind
/// `InvalidData`: the text that the bytes encode, where they are valid UTF-8.
#[verifier::external_body]
fn utf8_text(bytes: Vec<u8>) -> (r: Result<String, std::io::Error>)
    ensures
        match r {
            Ok(text) => valid_utf8(bytes@) && text@ == decode_utf8(bytes@),
            Err(_) => !valid_utf8(bytes@),
        },
{
    String::from_utf8(bytes).map_err(|e| std::io::Error::new(std::io::ErrorKind::InvalidData, e))
}

/// The value that a JSON text writes; `None` where the text is no JSON
/// document.
pub uninterp spec fn json_of(text: Seq<char>) -> Option<JsonView>;

/// `serde_json::from_str::<Value>`, the value handed over as a [`Json`]: the
/// value that the text writes, or the parser's error. The result is named
/// [`json_of`].
#[verifier::external_body]
fn parse_json(text: &str) -> (r: Result<Json, serde_json::Error>)
    ensures
        match r {
            Ok(j) => json_of(text@) == Some(j@),
            Err(_) => json_of(text@) is None,
        },
{
    serde_json::from_str::<serde_json::Value>(text).map(|v| json_from_value(&v))
}

/// Hands a `serde_json::Value` over as a [`Json`], variant for variant; a
/// number becomes its literal as `Number`'s `Display` writes it.
#[verifier::external_body]
fn json_from_value(value: &serde_json::Value) -> Json {
    match value {
        serde_json::Value::Null => Json::Null,
        serde_json::Value::Bool(b) => Json::Bool(*b),
        serde_json::Value::Number(n) => Json::Number(n.to_string()),
        serde_json::Value::String(s) => Json::Text(s.clone()),
        serde_json::Value::Array(items) => Json::Array(items.iter().map(json_from_value).collect()),
        serde_json::Value::Object(members) => Json::Object(
            members
                .iter()
                .map(|(k, v)| Member { name: k.clone(), value: json_from_value(v) })
                .collect(),
        ),
    }
}

/// The compact JSON text of a value.
pub uninterp spec fn text_of(j: JsonView) -> Seq<char>;

/// `serde_json::Value`'s `Display`, which writes compact JSON, on the value
/// that [`json_to_value`] makes of a [`Json`]. The result is named
/// [`text_of`].
#[verifier::external_body]
fn render_json(j: &Json) -> (r: String)
    ensures
        r@ == text_of(j@),
{
    json_to_value(j).to_string()
}

/// Hands a [`Json`] over as a `serde_json::Value`, variant for variant. A
/// number is read back from its literal by `serde_json::from_str`; a literal
/// that is no JSON number becomes `null`.
#[verifier::external_body]
fn json_to_value(j: &Json) -> serde_json::Value {
    match j {
        Json::Null => serde_json::Value::Null,
        Json::Bool(b) => serde_json::Value::Bool(*b),
        Json::Number(n) => serde_json::from_str::<serde_json::Number>(n).map_or(
            serde_json::Value::Null,
            serde_json::Value::Number,
        ),
        Json::Text(s) => serde_json::Value::String(s.clone()),
        Json::Array(items) => serde_json::Value::Array(items.iter().map(json_to_value).collect()),
        Json::Object(members) => serde_json::Value::Object(
            members.iter().map(|m| (m.name.clone(), json_to_value(&m.value))).collect(),
        ),
    }
}

/// `serde::de::Error::custom` for `serde_json::Error`: an error that says
/// that a document does not fit the schema.
#[verifier::external_body]
fn schema_mismatch() -> serde_json::Error {
    serde::de::Error::custom("document does not match the schema")
}

// ---------------------------------------------------------------------------
// Errors
// ---------------------------------------------------------------------------

/// Why a graph could not be loaded.
#[derive(Debug)]
pub enum LoadError {
    /// The store holds nothing under the key.
    KeyNotFound(String),
    /// The packed rules are no base64.
    Base64Error(base64::DecodeError),
    /// The packed rules do not unpack to a text.
    DecompressError(std::io::Error),
    /// A text is no JSON document, or the document does not fit the schema.
    JsonError(serde_json::Error),
    /// The document does not hold an array of `nodes` and one of `edges`.
    InvalidFormat,
    /// The stored payload holds no rules.
    EmptyRules,
}

/// The kinds of [`LoadError`].
pub enum LoadErrorKind {
    KeyNotFound,
    Base64Error,
    DecompressError,
    JsonError,
    InvalidFormat,
    EmptyRules,
}

impl LoadError {
    /// The error's kind.
    pub open spec fn kind(self) -> LoadErrorKind {
        match self {
            LoadError::KeyNotFound(_) => LoadErrorKind::KeyNotFound,
            LoadError::Base64Error(_) => LoadErrorKind::Base64Error,
            LoadError::DecompressError(_) => LoadErrorKind::DecompressError,
            LoadError::JsonError(_) => LoadErrorKind::JsonError,
            LoadError::InvalidFormat => LoadErrorKind::InvalidFormat,
            LoadError::EmptyRules => LoadErrorKind::EmptyRules,
        }
    }
}

/// What the configuration store holds for a service: the packed rules with
/// their version and deployment time.
#[derive(Debug, Clone, PartialEq, Eq)]
pub struct VcePayload {
    /// The version of the rules.
    pub version: String,
    /// When the rules were deployed.
    pub deployed_at: String,
    /// The graph: `raw:` and the base64 of its JSON text, or the base64 of the
    /// gzip of its JSON text.
    pub rules_packed: String,
}

/// The mathematical view of [`VcePayload`]: texts are sequences of characters.
pub struct VcePayloadView {
    pub version: Seq<char>,
    pub deployed_at: Seq<char>,
    pub rules_packed: Seq<char>,
}

impl View for VcePayload {
    type V = VcePayloadView;

    open spec fn view(&self) -> VcePayloadView {
        VcePayloadView {
            version: self.version@,
            deployed_at: self.deployed_at@,
            rules_packed: self.rules_packed@,
        }
    }
}

/// Reads a stored payload from a JSON value: `None` where the value does not
/// fit the schema.
pub open spec fn parse_vce_payload(j: JsonView) -> Option<VcePayloadView> {
    let version = text_field(field_slot(j, "version"@, 0));
    let deployed_at = text_field(field_slot(j, "deployedAt"@, 1));
    let rules_packed = text_field(field_slot(j, "rules_packed"@, 2));
    if is_record(j, 3)
        && version is Some
        && deployed_at is Some
        && rules_packed is Some {
        Some(
            VcePayloadView {
                version: version->0,
                deployed_at: deployed_at->0,
                rules_packed: rules_packed->0,
            },
        )
    } else {
        None
    }
}

/// The JSON object that writes a stored payload: a member for every field, in
/// the fields' order; a field that is not given is written as `null`.
pub open spec fn encode_vce_payload(v: VcePayloadView) -> JsonView {
    JsonView::Object(
        seq![
            member_view("version"@, JsonView::Text(v.version)),
            member_view("deployedAt"@, JsonView::Text(v.deployed_at)),
            member_view("rules_packed"@, JsonView::Text(v.rules_packed)),
        ],
    )
}

impl VcePayload {
    /// Reads a stored payload from a JSON value. The value is an object with
    /// the fields' names, or an array of the fields' values in order; a field
    /// that may be absent may also be `null`. `None` where the value does not
    /// fit.
    pub fn from_json(j: &Json) -> (r: Option<VcePayload>)
        ensures
            match r {
                Some(d) => parse_vce_payload(j@) == Some(d@),
                None => parse_vce_payload(j@) is None,
            },
    {
        if !check_record(j, 3) {
            return None;
        }
        let version = match read_text(slot(j, "version", 0)) {
            Some(v) => v,
            None => return None,
        };
        let deployed_at = match read_text(slot(j, "deployedAt", 1)) {
            Some(v) => v,
            None => return None,
        };
        let rules_packed = match read_text(slot(j, "rules_packed", 2)) {
            Some(v) => v,
            None => return None,
        };
        Some(VcePayload { version, deployed_at, rules_packed })
    }

    /// Writes a stored payload as a JSON object.
    pub fn to_json(&self) -> (r: Json)
        ensures
            r@ == encode_vce_payload(self@),
    {
        let mut members: Vec<Member> = Vec::new();
        members.push(make_member("version", write_text(&self.version)));
        members.push(make_member("deployedAt", write_text(&self.deployed_at)));
        members.push(make_member("rules_packed", write_text(&self.rules_packed)));
        let r = make_object(members);
        proof {
            assert(r@->Object_0 =~= encode_vce_payload(self@)->Object_0);
        }
        r
    }
}

/// What a lookup by name finds in the object that writes a stored payload.
proof fn lemma_vce_payload_slots(v: VcePayloadView)
    ensures
        field_slot(encode_vce_payload(v), "version"@, 0) == Some(JsonView::Text(v.version)),
        field_slot(encode_vce_payload(v), "deployedAt"@, 1) == Some(JsonView::Text(v.deployed_at)),
        field_slot(encode_vce_payload(v), "rules_packed"@, 2) == Some(
            JsonView::Text(v.rules_packed),
        ),
{
    let from_rules_packed = with_member(
        member_view("rules_packed"@, JsonView::Text(v.rules_packed)),
        Seq::empty(),
    );
    let from_deployed_at = with_member(
        member_view("deployedAt"@, JsonView::Text(v.deployed_at)),
        from_rules_packed,
    );
    let from_version = with_member(
        member_view("version"@, JsonView::Text(v.version)),
        from_deployed_at,
    );
    assert(encode_vce_payload(v)->Object_0 =~= from_version);
    lemma_lookup_steps();
    reveal_strlit("version");
    reveal_strlit("deployedAt");
    reveal_strlit("rules_packed");
    assert("version"@.len() == 7);
    assert("deployedAt"@.len() == 10);
    assert("rules_packed"@.len() == 12);
}

/// Reading a record gives a stored payload back where each field's slot holds
/// what writes the field.
proof fn lemma_vce_payload_from_slots(v: VcePayloadView, j: JsonView)
    requires
        is_record(j, 3),
        field_slot(j, "version"@, 0) == Some(JsonView::Text(v.version)),
        field_slot(j, "deployedAt"@, 1) == Some(JsonView::Text(v.deployed_at)),
        field_slot(j, "rules_packed"@, 2) == Some(JsonView::Text(v.rules_packed)),
    ensures
        parse_vce_payload(j) == Some(v),
{
}

/// Reading a stored payload that was written gives the same back.
pub proof fn law_vce_payload_round_trip(v: VcePayloadView)
    ensures
        parse_vce_payload(encode_vce_payload(v)) == Some(v),
{
    lemma_vce_payload_slots(v);
    lemma_vce_payload_from_slots(v, encode_vce_payload(v));
}

// ---------------------------------------------------------------------------
// Unpacking
// ---------------------------------------------------------------------------

/// The JSON text that packed rules hold.
///
/// With the prefix `raw:` the rest is the base64 of the text itself; without
/// it the whole is the base64 of the text's gzip.
pub open spec fn unpacked_text(packed: Seq<char>) -> Result<Seq<char>, LoadErrorKind> {
    if has_prefix(packed, "raw:"@) {
        match base64_decoded(packed.skip(4)) {
            Some(bytes) => if valid_utf8(bytes) {
                Ok(decode_utf8(bytes))
            } else {
                Err(LoadErrorKind::DecompressError)
            },
            None => Err(LoadErrorKind::Base64Error),
        }
    } else {
        match base64_decoded(packed) {
            Some(bytes) => match gunzipped(bytes) {
                Some(text) => Ok(text),
                None => Err(LoadErrorKind::DecompressError),
            },
            None => Err(LoadErrorKind::Base64Error),
        }
    }
}

/// Whether a document holds an array under `name`.
pub open spec fn has_array(j: JsonView, name: Seq<char>) -> bool {
    member(j, name) matches Some(JsonView::Array(_))
}

/// The graph that a JSON document holds. A document that does not hold an
/// array of `nodes` and an array of `edges` is no graph at all; one that
/// holds both must fit the schema.
pub open spec fn graph_of_json(j: JsonView) -> Result<GraphPayloadView, LoadErrorKind> {
    if !has_array(j, "nodes"@) || !has_array(j, "edges"@) {
        Err(LoadErrorKind::InvalidFormat)
    } else {
        match parse_graph_payload(j) {
            Some(g) => Ok(g),
            None => Err(LoadErrorKind::JsonError),
        }
    }
}

/// The graph that packed rules hold, or the kind of error that unpacking
/// them ends with.
pub open spec fn unpacked_graph(packed: Seq<char>) -> Result<GraphPayloadView, LoadErrorKind> {
    match unpacked_text(packed) {
        Ok(text) => match json_of(text) {
            Some(j) => graph_of_json(j),
            None => Err(LoadErrorKind::JsonError),
        },
        Err(kind) => Err(kind),
    }
}

/// The graph that a store entry holds, or the kind of error that loading it
/// ends with. `stored` is what the store holds under the service's key.
pub open spec fn stored_graph(
    stored: Option<Seq<char>>,
) -> Result<GraphPayloadView, LoadErrorKind> {
    match stored {
        None => Err(LoadErrorKind::KeyNotFound),
        Some(text) => match json_of(text) {
            None => Err(LoadErrorKind::JsonError),
            Some(j) => match parse_vce_payload(j) {
                None => Err(LoadErrorKind::JsonError),
                Some(payload) => if payload.rules_packed.len() == 0 {
                    Err(LoadErrorKind::EmptyRules)
                } else {
                    unpacked_graph(payload.rules_packed)
                },
            },
        },
    }
}

fn unpack_text(packed: &str) -> (r: Result<String, LoadError>)
    ensures
        match r {
            Ok(text) => unpacked_text(packed@) == Ok::<Seq<char>, LoadErrorKind>(text@),
            Err(e) => unpacked_text(packed@) == Err::<Seq<char>, LoadErrorKind>(e.kind()),
        },
{
    let chars = chars_of(packed);
    let prefix = chars_of("raw:");
    proof {
        reveal_strlit("raw:");
    }
    if starts_with(&chars, &prefix) {
        let rest_chars = slice_of(&chars, 4, chars.len());
        let rest = string_from_chars(&rest_chars);
        proof {
            assert(rest@ =~= packed@.skip(4));
        }
        match base64_decode(rest.as_str()) {
            Ok(bytes) => match utf8_text(bytes) {
                Ok(text) => Ok(text),
                Err(e) => Err(LoadError::DecompressError(e)),
            },
            Err(e) => Err(LoadError::Base64Error(e)),
        }
    } else {
        match base64_decode(packed) {
            Ok(bytes) => match gunzip(&bytes) {
                Ok(text) => Ok(text),
                Err(e) => Err(LoadError::DecompressError(e)),
            },
            Err(e) => Err(LoadError::Base64Error(e)),
        }
    }
}

/// Reads a JSON text.
pub fn json_from_text(text: &str) -> (r: Result<Json, LoadError>)
    ensures
        match r {
            Ok(j) => json_of(text@) == Some(j@),
            Err(e) => json_of(text@) is None && e.kind() == LoadErrorKind::JsonError,
        },
{
    match parse_json(text) {
        Ok(j) => Ok(j),
        Err(e) => Err(LoadError::JsonError(e)),
    }
}

/// Writes a JSON value as compact JSON text.
pub fn json_to_text(j: &Json) -> (r: String)
    ensures
        r@ == text_of(j@),
{
    render_json(j)
}

fn holds_array(j: &Json, name: &str) -> (r: bool)
    ensures
        r == has_array(j@, name@),
{
    match get(j, name) {
        Some(Json::Array(_)) => true,
        _ => false,
    }
}

/// Reads a graph from a JSON document.
pub fn graph_from_json(j: &Json) -> (r: Result<GraphPayload, LoadError>)
    ensures
        match r {
            Ok(g) => graph_of_json(j@) == Ok::<GraphPayloadView, LoadErrorKind>(g@),
            Err(e) => graph_of_json(j@) == Err::<GraphPayloadView, LoadErrorKind>(e.kind()),
        },
{
    if !holds_array(j, "nodes") || !holds_array(j, "edges") {
        return Err(LoadError::InvalidFormat);
    }
    match GraphPayload::from_json(j) {
        Some(g) => Ok(g),
        None => Err(LoadError::JsonError(schema_mismatch())),
    }
}

/// Unpacks a graph from its packed form: `raw:` and the base64 of the
/// graph's JSON text, or the base64 of the gzip of that text.
///
/// It fails with `Base64Error` where the text is no base64, with
/// `DecompressError` where the bytes are no gzip stream or no UTF-8 text,
/// with `JsonError` where the text is no JSON document or the document does
/// not fit the graph's schema, and with `InvalidFormat` where the document
/// does not hold an array of `nodes` and an array of `edges`.
pub fn decompress_graph(packed: &str) -> (r: Result<GraphPayload, LoadError>)
    ensures
        match r {
            Ok(g) => unpacked_graph(packed@) == Ok::<GraphPayloadView, LoadErrorKind>(g@),
            Err(e) => unpacked_graph(packed@) == Err::<GraphPayloadView, LoadErrorKind>(e.kind()),
        },
{
    let text = match unpack_text(packed) {
        Ok(text) => text,
        Err(e) => return Err(e),
    };
    match parse_json(text.as_str()) {
        Ok(j) => graph_from_json(&j),
        Err(e) => Err(LoadError::JsonError(e)),
    }
}

/// Loads a service's graph from what the configuration store holds under the
/// service's identifier.
///
/// `stored` is the store's value, `None` where the store has no such key;
/// that is `KeyNotFound`. A value that is no JSON payload with `version`,
/// `deployedAt` and `rules_packed` is a `JsonError`, empty rules are
/// `EmptyRules`, and the rules are unpacked as [`decompress_graph`] does.
pub fn load_graph_from_store(
    stored: Option<&str>,
    service_id: &str,
) -> (r: Result<GraphPayload, LoadError>)
    ensures
        match r {
            Ok(g) => stored_graph(opt_str(stored)) == Ok::<GraphPayloadView, LoadErrorKind>(g@),
            Err(e) => stored_graph(opt_str(stored)) == Err::<GraphPayloadView, LoadErrorKind>(
                e.kind(),
            ),
        },
        stored is None ==> (r matches Err(LoadError::KeyNotFound(key)) && key@ == service_id@),
{
    let text = match stored {
        Some(text) => text,
        None => return Err(LoadError::KeyNotFound(copy_string(service_id))),
    };
    let j = match parse_json(text) {
        Ok(j) => j,
        Err(e) => return Err(LoadError::JsonError(e)),
    };
    let payload = match VcePayload::from_json(&j) {
        Some(p) => p,
        None => return Err(LoadError::JsonError(schema_mismatch())),
    };
    if payload.rules_packed.as_str().unicode_len() == 0 {
        return Err(LoadError::EmptyRules);
    }
    decompress_graph(payload.rules_packed.as_str())
}

// ---------------------------------------------------------------------------
// The hash of the stored rules
// ---------------------------------------------------------------------------

/// The hash by which a deployment is recognised: that of the payload's
/// packed rules, or `none` where the store holds no payload, the payload is
/// no JSON document, or it holds no rules.
pub open spec fn stored_rules_hash(stored: Option<Seq<char>>) -> Seq<char> {
    match stored {
        Some(text) => match json_of(text) {
            Some(j) => match member(j, "rules_packed"@) {
                Some(JsonView::Text(rules)) => if rules.len() > 0 {
                    rules_hash_of(rules)
                } else {
                    "none"@
                },
                _ => "none"@,
            },
            None => "none"@,
        },
        None => "none"@,
    }
}

/// The hash of the rules that the store holds for a service, for the
/// version endpoint. `stored` is the store's value, `None` where the store
/// has no such key.
pub fn deployed_rules_hash(stored: Option<&str>) -> (r: String)
    ensures
        r@ == stored_rules_hash(opt_str(stored)),
{
    let text = match stored {
        Some(text) => text,
        None => return copy_string("none"),
    };
    let j = match parse_json(text) {
        Ok(j) => j,
        Err(_) => return copy_string("none"),
    };
    match get(&j, "rules_packed") {
        Some(Json::Text(rules)) => {
            if rules.as_str().unicode_len() > 0 {
                rules_hash(rules.as_str())
            } else {
                copy_string("none")
            }
        },
        _ => copy_string("none"),
    }
}

// ---------------------------------------------------------------------------
// Round trip
// ---------------------------------------------------------------------------

/// Reading the JSON document that writes a graph gives the same graph back:
/// the same nodes and edges, in the same order, each with all its fields.
pub proof fn law_graph_round_trip(g: GraphPayloadView)
    ensures
        graph_of_json(encode_graph_payload(g)) == Ok::<GraphPayloadView, LoadErrorKind>(g),
{
    law_graph_payload_round_trip(g);
    let members = encode_graph_payload(g)->Object_0;
    reveal_strlit("nodes");
    reveal_strlit("edges");
    assert("nodes"@.len() == 5 && "nodes"@[0] == 'n');
    assert("edges"@.len() == 5 && "edges"@[0] == 'e');
    lemma_member_at(members, "nodes"@, 0);
    lemma_member_at(members, "edges"@, 1);
}

/// A packed graph unpacks to the graph it was made from, in the raw and in
/// the compressed form alike: where the packed rules unpack to a text that
/// is the JSON document of `g`, loading them gives `g`.
pub proof fn law_packed_graph_round_trip(g: GraphPayloadView, packed: Seq<char>)
    requires
        unpacked_text(packed) is Ok,
        json_of(unpacked_text(packed)->Ok_0) == Some(encode_graph_payload(g)),
    ensures
        unpacked_graph(packed) == Ok::<GraphPayloadView, LoadErrorKind>(g),
{
    law_graph_round_trip(g);
}

} // verus!
