use vstd::prelude::*;
use vstd::string::StringExecFns;
use crate::pipeline::{Fault, FaultKind};
use crate::template::{TemplateIdentity, package_id};

verus! {

#[verifier::external_type_specification]
#[verifier::external_body]
pub struct ExYamlValue(serde_yaml::Value);

#[verifier::external_type_specification]
#[verifier::external_body]
pub struct ExYamlMapping(serde_yaml::Mapping);

#[verifier::external_type_specification]
#[verifier::external_body]
pub struct ExYamlError(serde_yaml::Error);

/// The section of the settings document that the template's entries go into.
pub const PLAYER_SETTINGS_KEY: &'static str = "PlayerSettings";

/// The entry that names the template package.
pub const PACKAGE_ID_KEY: &'static str = "templatePackageId";

/// The entry that names the scene opened first.
pub const DEFAULT_SCENE_KEY: &'static str = "templateDefaultScene";

/// The YAML document that `text` holds, if it holds one.
pub uninterp spec fn yaml_parse(text: Seq<char>) -> Option<serde_yaml::Value>;

/// The YAML text of a document, where it can be written out.
pub uninterp spec fn yaml_emit(v: serde_yaml::Value) -> Option<Seq<char>>;

/// The entries of a YAML mapping, by key.
pub uninterp spec fn yaml_entries(m: serde_yaml::Mapping) -> Map<serde_yaml::Value, serde_yaml::Value>;

/// The YAML string holding `s`.
pub uninterp spec fn yaml_str(s: Seq<char>) -> serde_yaml::Value;

/// The mapping that a YAML value is, under any tags, if it is one.
pub uninterp spec fn yaml_mapping(v: serde_yaml::Value) -> Option<serde_yaml::Mapping>;

/// Relies on serde_yaml::from_str: it reads a document from the text alone.
#[verifier::external_body]
fn parse_yaml(text: &str) -> (r: Result<serde_yaml::Value, serde_yaml::Error>)
    ensures
        r is Ok <==> yaml_parse(text@) is Some,
        r matches Ok(v) ==> yaml_parse(text@) == Some(v),
{
    serde_yaml::from_str(text)
}

/// Relies on serde_yaml::to_string: the YAML text of the document.
#[verifier::external_body]
fn emit_yaml(v: &serde_yaml::Value) -> (r: Result<String, serde_yaml::Error>)
    ensures
        r is Ok <==> yaml_emit(*v) is Some,
        r matches Ok(s) ==> yaml_emit(*v) == Some(s@),
{
    serde_yaml::to_string(v)
}

/// Relies on serde_yaml's `From<&str>` for `Value`: a YAML string, which
/// holds `s` and no other text.
#[verifier::external_body]
fn yaml_string(s: &str) -> (r: serde_yaml::Value)
    ensures
        r == yaml_str(s@),
        forall|t: Seq<char>| #[trigger] yaml_str(t) == r ==> t == s@,
{
    serde_yaml::Value::from(s)
}

/// Relies on serde_yaml::Value::as_mapping: the mapping under any tags,
/// which is copied.
#[verifier::external_body]
fn mapping_of(v: &serde_yaml::Value) -> (r: Option<serde_yaml::Mapping>)
    ensures
        r == yaml_mapping(*v),
{
    v.as_mapping().cloned()
}

/// Relies on serde_yaml::Value::as_mapping_mut: the mapping under any tags
/// is replaced by `m`; the rest of the value, its tags, stays.
#[verifier::external_body]
fn set_mapping(v: &mut serde_yaml::Value, m: serde_yaml::Mapping)
    ensures
        yaml_mapping(*old(v)) is Some ==> yaml_mapping(*final(v)) == Some(m),
        yaml_mapping(*old(v)) == Some(m) ==> *final(v) == *old(v),
{
    if let Some(slot) = v.as_mapping_mut() {
        *slot = m;
    }
}

/// Relies on serde_yaml::Mapping::get with a `&str` key: the value under
/// the string key `k`, which is copied.
#[verifier::external_body]
fn mapping_get(m: &serde_yaml::Mapping, k: &str) -> (r: Option<serde_yaml::Value>)
    ensures
        r == (if yaml_entries(*m).contains_key(yaml_str(k@)) {
            Some(yaml_entries(*m)[yaml_str(k@)])
        } else {
            None
        }),
{
    m.get(k).cloned()
}

/// Relies on serde_yaml::Mapping::insert: the string key `k` then maps to
/// the value, and the other keys keep theirs; a key already there keeps its
/// place, so a mapping that held the value under `k` stays as it was.
#[verifier::external_body]
fn mapping_insert(m: &mut serde_yaml::Mapping, k: serde_yaml::Value, v: serde_yaml::Value)
    requires
        exists|s: Seq<char>| k == #[trigger] yaml_str(s),
    ensures
        yaml_entries(*final(m)) == yaml_entries(*old(m)).insert(k, v),
        yaml_entries(*old(m)).contains_key(k) && yaml_entries(*old(m))[k] == v ==> *final(m) == *old(m),
{
    m.insert(k, v);
}

/// Relies on serde_yaml::Error's `Display`: a message for people.
#[verifier::external_body]
fn yaml_error_message(e: &serde_yaml::Error) -> (r: String) {
    e.to_string()
}

/// The player settings entries once the identity is written into them.
pub open spec fn player_entries(
    entries: Map<serde_yaml::Value, serde_yaml::Value>,
    id: TemplateIdentity,
) -> Map<serde_yaml::Value, serde_yaml::Value> {
    entries.insert(yaml_str(PACKAGE_ID_KEY@), yaml_str(package_id(id)))
        .insert(yaml_str(DEFAULT_SCENE_KEY@), yaml_str(id.default_scene@))
}

/// The player settings entries hold the identity: the template's identifier
/// and its default scene, under two different keys.
pub open spec fn holds_identity(entries: Map<serde_yaml::Value, serde_yaml::Value>, id: TemplateIdentity) -> bool {
    &&& yaml_str(PACKAGE_ID_KEY@) != yaml_str(DEFAULT_SCENE_KEY@)
    &&& entries.contains_key(yaml_str(PACKAGE_ID_KEY@))
    &&& entries[yaml_str(PACKAGE_ID_KEY@)] == yaml_str(package_id(id))
    &&& entries.contains_key(yaml_str(DEFAULT_SCENE_KEY@))
    &&& entries[yaml_str(DEFAULT_SCENE_KEY@)] == yaml_str(id.default_scene@)
}

/// The player settings section of a settings document, where the document
/// is a mapping and the section is one too.
pub open spec fn player_section(doc: serde_yaml::Value) -> Option<serde_yaml::Mapping> {
    match yaml_mapping(doc) {
        Some(m) => if yaml_entries(m).contains_key(yaml_str(PLAYER_SETTINGS_KEY@)) {
            yaml_mapping(yaml_entries(m)[yaml_str(PLAYER_SETTINGS_KEY@)])
        } else {
            None
        },
        None => None,
    }
}

/// `new` is the settings document `old` with the identity written into its
/// player settings: every other section is as it was, and so is every other
/// entry of the player settings, which then hold the identity.
pub open spec fn settings_rewritten(old: serde_yaml::Value, new: serde_yaml::Value, id: TemplateIdentity) -> bool {
    let ps = yaml_str(PLAYER_SETTINGS_KEY@);
    &&& player_section(old) is Some
    &&& yaml_mapping(new) is Some
    &&& yaml_entries(yaml_mapping(new).unwrap()) == yaml_entries(yaml_mapping(old).unwrap()).insert(
        ps,
        yaml_entries(yaml_mapping(new).unwrap())[ps],
    )
    &&& player_section(new) is Some
    &&& yaml_entries(player_section(new).unwrap()) == player_entries(yaml_entries(player_section(old).unwrap()), id)
    &&& holds_identity(yaml_entries(player_section(new).unwrap()), id)
}

/// Writes the template's identifier and default scene into the player
/// settings entries; entries that already hold them stay as they were.
pub fn rewrite_player_settings(m: &mut serde_yaml::Mapping, id: &TemplateIdentity)
    ensures
        yaml_entries(*final(m)) == player_entries(yaml_entries(*old(m)), *id),
        holds_identity(yaml_entries(*final(m)), *id),
        holds_identity(yaml_entries(*old(m)), *id) ==> *final(m) == *old(m),
{
    let pid = id.package_id();
    let pid_key = yaml_string(PACKAGE_ID_KEY);
    let scene_key = yaml_string(DEFAULT_SCENE_KEY);
    proof {
        reveal_strlit("templatePackageId");
        reveal_strlit("templateDefaultScene");
        assert(PACKAGE_ID_KEY@.len() != DEFAULT_SCENE_KEY@.len());
    }
    mapping_insert(m, pid_key, yaml_string(pid.as_str()));
    mapping_insert(m, scene_key, yaml_string(id.default_scene.as_str()));
}

/// Writes the identity into the player settings of a settings document.
/// Fails with `Schema`, and leaves the document as it was, where the
/// document or its player settings section is no mapping, or the section is
/// absent.
pub fn rewrite_settings(doc: &mut serde_yaml::Value, id: &TemplateIdentity) -> (r: Result<(), Fault>)
    ensures
        player_section(*old(doc)) is None ==> (r matches Err(f) && f.kind == FaultKind::Schema
            && *final(doc) == *old(doc)),
        player_section(*old(doc)) is Some ==> (r is Ok && settings_rewritten(*old(doc), *final(doc), *id)),
        player_section(*old(doc)) matches Some(s) && holds_identity(yaml_entries(s), *id)
            ==> *final(doc) == *old(doc),
{
    let mut top = match mapping_of(doc) {
        Some(m) => m,
        None => {
            return Err(Fault::new(FaultKind::Schema, "the settings document is not a mapping"));
        },
    };
    let mut section = match mapping_get(&top, PLAYER_SETTINGS_KEY) {
        Some(v) => v,
        None => {
            return Err(Fault::new(FaultKind::Schema, "the settings document has no player settings"));
        },
    };
    let mut entries = match mapping_of(&section) {
        Some(m) => m,
        None => {
            return Err(Fault::new(FaultKind::Schema, "the player settings are not a mapping"));
        },
    };
    rewrite_player_settings(&mut entries, id);
    set_mapping(&mut section, entries);
    let section_key = yaml_string(PLAYER_SETTINGS_KEY);
    mapping_insert(&mut top, section_key, section);
    set_mapping(doc, top);
    Ok(())
}

/// Rewrites the text of a settings document: the template's identifier and
/// default scene are set in its player settings, and every other section and
/// entry stays. Fails with `Format` on text that is no YAML or a document
/// that cannot be written out, and with `Schema` where the player settings
/// section is absent or no mapping.
pub fn rewrite_settings_text(text: &str, id: &TemplateIdentity) -> (r: Result<String, Fault>)
    ensures
        yaml_parse(text@) is None ==> (r matches Err(f) && f.kind == FaultKind::Format),
        yaml_parse(text@) matches Some(v) ==> if player_section(v) is None {
            r matches Err(f) && f.kind == FaultKind::Schema
        } else {
            exists|w: serde_yaml::Value| #[trigger] settings_rewritten(v, w, *id) && match r {
                Ok(out) => yaml_emit(w) == Some(out@),
                Err(f) => yaml_emit(w) is None && f.kind == FaultKind::Format,
            }
        },
{
    let mut doc = match parse_yaml(text) {
        Ok(v) => v,
        Err(e) => {
            let mut msg = String::from_str("the settings document is not valid YAML: ");
            msg.append(yaml_error_message(&e).as_str());
            return Err(Fault { kind: FaultKind::Format, message: msg });
        },
    };
    let ghost before = doc;
    rewrite_settings(&mut doc, id)?;
    let r = match emit_yaml(&doc) {
        Ok(out) => Ok(out),
        Err(e) => {
            let mut msg = String::from_str("the settings document cannot be written: ");
            msg.append(yaml_error_message(&e).as_str());
            Err(Fault { kind: FaultKind::Format, message: msg })
        },
    };
    assert(settings_rewritten(before, doc, *id));
    r
}

/// Rewriting a settings document keeps every section but the player
/// settings as it was, adds or removes none, and within the player settings
/// keeps every entry but the template's identifier and default scene, which
/// then hold the identity's package identifier and scene.
pub proof fn lemma_settings_keep_other_entries(old: serde_yaml::Value, new: serde_yaml::Value, id: TemplateIdentity)
    requires
        settings_rewritten(old, new, id),
    ensures
        ({
            let ps = yaml_str(PLAYER_SETTINGS_KEY@);
            let pid = yaml_str(PACKAGE_ID_KEY@);
            let scene = yaml_str(DEFAULT_SCENE_KEY@);
            let d0 = yaml_entries(yaml_mapping(old).unwrap());
            let d1 = yaml_entries(yaml_mapping(new).unwrap());
            let s0 = yaml_entries(player_section(old).unwrap());
            let s1 = yaml_entries(player_section(new).unwrap());
            &&& d1.dom() == d0.dom()
            &&& forall|k: serde_yaml::Value| #![trigger d1[k]] d0.contains_key(k) && k != ps ==> d1[k] == d0[k]
            &&& s1.dom() == s0.dom().insert(pid).insert(scene)
            &&& forall|k: serde_yaml::Value| #![trigger s1[k]] s0.contains_key(k) && k != pid && k != scene ==> s1[k] == s0[k]
            &&& s1[pid] == yaml_str(package_id(id))
            &&& s1[scene] == yaml_str(id.default_scene@)
        }),
{
    let ps = yaml_str(PLAYER_SETTINGS_KEY@);
    let d0 = yaml_entries(yaml_mapping(old).unwrap());
    let d1 = yaml_entries(yaml_mapping(new).unwrap());
    let s0 = yaml_entries(player_section(old).unwrap());
    let s1 = yaml_entries(player_section(new).unwrap());
    assert(d0.contains_key(ps));
    assert(d1.dom() =~= d0.dom());
    assert(s1.dom() =~= s0.dom().insert(yaml_str(PACKAGE_ID_KEY@)).insert(yaml_str(DEFAULT_SCENE_KEY@)));
}

/// A rewritten settings document already holds the identity in its player
/// settings, so rewriting it again leaves it as it is (see the last clause
/// of `rewrite_settings`).
pub proof fn lemma_settings_rewrite_settles(old: serde_yaml::Value, new: serde_yaml::Value, id: TemplateIdentity)
    requires
        settings_rewritten(old, new, id),
    ensures
        player_section(new) matches Some(s) && holds_identity(yaml_entries(s), id),
{
}

} // verus!
