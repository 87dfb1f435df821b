use vstd::prelude::*;
use vstd::string::StringExecFns;
use crate::pipeline::{Fault, FaultKind};
use crate::template::TemplateIdentity;

verus! {

#[verifier::external_type_specification]
#[verifier::external_body]
pub struct ExJsonValue(serde_json::Value);

#[verifier::external_type_specification]
#[verifier::external_body]
#[verifier::reject_recursive_types(K)]
#[verifier::reject_recursive_types(V)]
pub struct ExJsonMap<K, V>(serde_json::Map<K, V>);

#[verifier::external_type_specification]
#[verifier::external_body]
pub struct ExJsonError(serde_json::Error);

/// The field of the manifest that holds the package identifier.
pub const NAME_KEY: &'static str = "name";

pub const DISPLAY_NAME_KEY: &'static str = "displayName";

pub const VERSION_KEY: &'static str = "version";

pub const DESCRIPTION_KEY: &'static str = "description";

/// The JSON document that `text` holds, if it holds one.
pub uninterp spec fn json_parse(text: Seq<char>) -> Option<serde_json::Value>;

/// The compact JSON text of a document.
pub uninterp spec fn json_text(v: serde_json::Value) -> Seq<char>;

/// The fields of a JSON object, by key.
pub uninterp spec fn json_fields(m: serde_json::Map<String, serde_json::Value>) -> Map<Seq<char>, serde_json::Value>;

/// The JSON string holding `s`.
pub uninterp spec fn json_str(s: Seq<char>) -> serde_json::Value;

/// The object that a JSON document is, if it is one.
pub uninterp spec fn json_object(v: serde_json::Value) -> Option<serde_json::Map<String, serde_json::Value>>;

/// Relies on serde_json::from_str: it reads a document from the text alone.
#[verifier::external_body]
fn parse_json(text: &str) -> (r: Result<serde_json::Value, serde_json::Error>)
    ensures
        r is Ok <==> json_parse(text@) is Some,
        r matches Ok(v) ==> json_parse(text@) == Some(v),
{
    serde_json::from_str(text)
}

/// Relies on serde_json's `Display` for `Value`: the compact text of the document.
#[verifier::external_body]
fn json_to_text(v: &serde_json::Value) -> (r: String)
    ensures
        r@ == json_text(*v),
{
    v.to_string()
}

/// Relies on serde_json's `From<&str>` for `Value`: a JSON string.
#[verifier::external_body]
fn json_string(s: &str) -> (r: serde_json::Value)
    ensures
        r == json_str(s@),
{
    serde_json::Value::from(s)
}

/// Relies on serde_json::Value::as_object: the map of an object, which is copied.
#[verifier::external_body]
fn object_of(v: &serde_json::Value) -> (r: Option<serde_json::Map<String, serde_json::Value>>)
    ensures
        r == json_object(*v),
{
    v.as_object().cloned()
}

/// Relies on serde_json::Value::as_object_mut: the map of an object is replaced by `m`.
#[verifier::external_body]
fn set_object(v: &mut serde_json::Value, m: serde_json::Map<String, serde_json::Value>)
    ensures
        json_object(*old(v)) is Some ==> json_object(*final(v)) == Some(m),
{
    if let Some(slot) = v.as_object_mut() {
        *slot = m;
    }
}

/// Relies on serde_json::Map::insert: the key then maps to the value, and
/// the other keys keep theirs.
#[verifier::external_body]
fn json_insert(m: &mut serde_json::Map<String, serde_json::Value>, k: &str, v: serde_json::Value)
    ensures
        json_fields(*final(m)) == json_fields(*old(m)).insert(k@, v),
{
    m.insert(k.to_owned(), v);
}

/// Relies on serde_json::Error's `Display`: a message for people.
#[verifier::external_body]
fn json_error_message(e: &serde_json::Error) -> (r: String) {
    e.to_string()
}

/// The manifest fields once the identity is written into them.
pub open spec fn manifest_fields(
    fields: Map<Seq<char>, serde_json::Value>,
    id: TemplateIdentity,
) -> Map<Seq<char>, serde_json::Value> {
    fields.insert(NAME_KEY@, json_str(id.name@))
        .insert(DISPLAY_NAME_KEY@, json_str(id.display_name@))
        .insert(VERSION_KEY@, json_str(id.version@))
        .insert(DESCRIPTION_KEY@, json_str(id.description@))
}

/// `out` is the text of a manifest whose fields are `fields` with the
/// identity written into them.
pub open spec fn manifest_written(
    fields: Map<Seq<char>, serde_json::Value>,
    id: TemplateIdentity,
    out: Seq<char>,
) -> bool {
    exists|w: serde_json::Value|
        json_object(w) is Some && json_fields(json_object(w).unwrap()) == manifest_fields(fields, id)
            && out == #[trigger] json_text(w)
}

/// Writes the identity into the fields of a manifest.
pub fn rewrite_manifest(m: &mut serde_json::Map<String, serde_json::Value>, id: &TemplateIdentity)
    ensures
        json_fields(*final(m)) == manifest_fields(json_fields(*old(m)), *id),
{
    json_insert(m, NAME_KEY, json_string(id.name.as_str()));
    json_insert(m, DISPLAY_NAME_KEY, json_string(id.display_name.as_str()));
    json_insert(m, VERSION_KEY, json_string(id.version.as_str()));
    json_insert(m, DESCRIPTION_KEY, json_string(id.description.as_str()));
}

/// Rewrites the text of a package manifest: the identity replaces its
/// name, display name, version and description; every other field stays.
/// Fails with `Format` on text that is no JSON, or a JSON document that is
/// no object.
pub fn rewrite_manifest_text(text: &str, id: &TemplateIdentity) -> (r: Result<String, Fault>)
    ensures
        json_parse(text@) is None ==> (r matches Err(f) && f.kind == FaultKind::Format),
        json_parse(text@) matches Some(v) ==> match json_object(v) {
            None => r matches Err(f) && f.kind == FaultKind::Format,
            Some(m) => r matches Ok(out) && manifest_written(json_fields(m), *id, out@),
        },
{
    let mut doc = match parse_json(text) {
        Ok(v) => v,
        Err(e) => {
            let mut msg = String::from_str("the package manifest is not valid JSON: ");
            msg.append(json_error_message(&e).as_str());
            return Err(Fault { kind: FaultKind::Format, message: msg });
        },
    };
    let mut fields = match object_of(&doc) {
        Some(m) => m,
        None => {
            return Err(Fault::new(FaultKind::Format, "the package manifest is not a JSON object"));
        },
    };
    let ghost before = fields;
    rewrite_manifest(&mut fields, id);
    let ghost after = fields;
    set_object(&mut doc, fields);
    let out = json_to_text(&doc);
    assert(json_object(doc) == Some(after) && json_fields(after) == manifest_fields(json_fields(before), *id)
        && out@ == json_text(doc));
    Ok(out)
}

/// Rewriting a manifest changes only its name, display name, version and
/// description, which then hold the identity's values: every other field
/// keeps its value, and no field appears or goes.
pub proof fn lemma_manifest_keeps_other_fields(fields: Map<Seq<char>, serde_json::Value>, id: TemplateIdentity)
    ensures
        ({
            let out = manifest_fields(fields, id);
            &&& out.dom() == fields.dom().insert(NAME_KEY@).insert(DISPLAY_NAME_KEY@).insert(VERSION_KEY@).insert(DESCRIPTION_KEY@)
            &&& forall|k: Seq<char>|
                #![trigger out[k]]
                fields.contains_key(k) && k != NAME_KEY@ && k != DISPLAY_NAME_KEY@ && k != VERSION_KEY@
                    && k != DESCRIPTION_KEY@ ==> out[k] == fields[k]
            &&& out[NAME_KEY@] == json_str(id.name@)
            &&& out[DISPLAY_NAME_KEY@] == json_str(id.display_name@)
            &&& out[VERSION_KEY@] == json_str(id.version@)
            &&& out[DESCRIPTION_KEY@] == json_str(id.description@)
        }),
{
    reveal_strlit("name");
    reveal_strlit("displayName");
    reveal_strlit("version");
    reveal_strlit("description");
    assert(NAME_KEY@.len() != DISPLAY_NAME_KEY@.len());
    assert(NAME_KEY@.len() != VERSION_KEY@.len());
    assert(NAME_KEY@.len() != DESCRIPTION_KEY@.len());
    assert(DISPLAY_NAME_KEY@.len() != VERSION_KEY@.len());
    assert(VERSION_KEY@.len() != DESCRIPTION_KEY@.len());
    assert(DISPLAY_NAME_KEY@[1] != DESCRIPTION_KEY@[1]);
    let out = manifest_fields(fields, id);
    assert(out.dom() =~= fields.dom().insert(NAME_KEY@).insert(DISPLAY_NAME_KEY@).insert(VERSION_KEY@).insert(DESCRIPTION_KEY@));
}

} // verus!
