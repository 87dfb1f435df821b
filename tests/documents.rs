use unity_template_packer::paths::{has_extension, join, same_text};
use unity_template_packer::{rewrite_manifest_text, rewrite_settings_text, FaultKind, TemplateIdentity};

fn identity() -> TemplateIdentity {
    TemplateIdentity {
        name: String::from("com.example.template.clean"),
        display_name: String::from("Clean"),
        version: String::from("1.2.3"),
        description: String::from("An empty project"),
        default_scene: String::from("Assets/Scenes/Main.unity"),
    }
}

const MANIFEST: &'static str = r#"{
  "name": "com.unity.template.3d",
  "displayName": "3D",
  "version": "4.2.8",
  "type": "template",
  "host": "hub",
  "unity": "2019.4",
  "description": "This is an empty 3D project.",
  "dependencies": {"com.unity.ide.rider": "1.1.4"}
}"#;

const SETTINGS: &'static str = "PlayerSettings:
  companyName: DefaultCompany
  productName: Sample
  templatePackageId: com.unity.template.3d@4.2.8
  defaultScreenWidth: 1024
EditorSettings:
  serializationMode: 2
";

fn json_field(doc: &serde_json::Value, key: &str) -> String {
    doc.get(key).and_then(|v| v.as_str()).unwrap().to_string()
}

fn yaml_field(section: &serde_yaml::Value, key: &str) -> serde_yaml::Value {
    section.get(key).unwrap().clone()
}

#[test]
fn manifest_takes_the_identity() {
    let out = rewrite_manifest_text(MANIFEST, &identity()).unwrap();
    let doc: serde_json::Value = serde_json::from_str(&out).unwrap();
    assert_eq!(json_field(&doc, "name"), "com.example.template.clean");
    assert_eq!(json_field(&doc, "displayName"), "Clean");
    assert_eq!(json_field(&doc, "version"), "1.2.3");
    assert_eq!(json_field(&doc, "description"), "An empty project");
}

#[test]
fn manifest_keeps_other_fields() {
    let out = rewrite_manifest_text(MANIFEST, &identity()).unwrap();
    let doc: serde_json::Value = serde_json::from_str(&out).unwrap();
    let before: serde_json::Value = serde_json::from_str(MANIFEST).unwrap();
    let (a, b) = (doc.as_object().unwrap(), before.as_object().unwrap());
    assert_eq!(a.len(), b.len());
    for key in ["type", "host", "unity", "dependencies"] {
        assert_eq!(a.get(key), b.get(key));
    }
}

#[test]
fn manifest_gains_missing_fields() {
    let out = rewrite_manifest_text("{\"keep\": [1, 2]}", &identity()).unwrap();
    let doc: serde_json::Value = serde_json::from_str(&out).unwrap();
    assert_eq!(doc.as_object().unwrap().len(), 5);
    assert_eq!(json_field(&doc, "name"), "com.example.template.clean");
    assert_eq!(doc.get("keep").unwrap().as_array().unwrap().len(), 2);
}

#[test]
fn manifest_errors() {
    assert_eq!(rewrite_manifest_text("{\"name\": ", &identity()).unwrap_err().kind, FaultKind::Format);
    assert_eq!(rewrite_manifest_text("", &identity()).unwrap_err().kind, FaultKind::Format);
    assert_eq!(rewrite_manifest_text("[1, 2]", &identity()).unwrap_err().kind, FaultKind::Format);
    assert_eq!(rewrite_manifest_text("5", &identity()).unwrap_err().kind, FaultKind::Format);
    assert_eq!(rewrite_manifest_text("\"text\"", &identity()).unwrap_err().kind, FaultKind::Format);
}

#[test]
fn settings_take_the_identity() {
    let out = rewrite_settings_text(SETTINGS, &identity()).unwrap();
    let doc: serde_yaml::Value = serde_yaml::from_str(&out).unwrap();
    let ps = doc.get("PlayerSettings").unwrap();
    assert_eq!(
        yaml_field(ps, "templatePackageId"),
        serde_yaml::Value::from("com.example.template.clean@1.2.3")
    );
    assert_eq!(yaml_field(ps, "templateDefaultScene"), serde_yaml::Value::from("Assets/Scenes/Main.unity"));
}

#[test]
fn settings_keep_other_entries() {
    let out = rewrite_settings_text(SETTINGS, &identity()).unwrap();
    let doc: serde_yaml::Value = serde_yaml::from_str(&out).unwrap();
    let before: serde_yaml::Value = serde_yaml::from_str(SETTINGS).unwrap();
    assert_eq!(doc.get("EditorSettings"), before.get("EditorSettings"));
    let (ps, ps0) = (doc.get("PlayerSettings").unwrap(), before.get("PlayerSettings").unwrap());
    for key in ["companyName", "productName", "defaultScreenWidth"] {
        assert_eq!(ps.get(key), ps0.get(key));
    }
    assert_eq!(ps.as_mapping().unwrap().len(), 5);
    assert_eq!(doc.as_mapping().unwrap().len(), 2);
}

#[test]
fn tagged_settings_keep_their_tag() {
    let text = "--- !Settings\nPlayerSettings:\n  productName: Sample\n";
    let out = rewrite_settings_text(text, &identity()).unwrap();
    let doc: serde_yaml::Value = serde_yaml::from_str(&out).unwrap();
    assert!(matches!(doc, serde_yaml::Value::Tagged(_)));
    let ps = doc.get("PlayerSettings").unwrap();
    assert_eq!(yaml_field(ps, "productName"), serde_yaml::Value::from("Sample"));
    assert_eq!(yaml_field(ps, "templateDefaultScene"), serde_yaml::Value::from("Assets/Scenes/Main.unity"));
}

#[test]
fn settings_errors() {
    assert_eq!(rewrite_settings_text("a: [1, 2", &identity()).unwrap_err().kind, FaultKind::Format);
    assert_eq!(rewrite_settings_text("- 1\n- 2\n", &identity()).unwrap_err().kind, FaultKind::Schema);
    assert_eq!(
        rewrite_settings_text("EditorSettings:\n  a: 1\n", &identity()).unwrap_err().kind,
        FaultKind::Schema
    );
    assert_eq!(
        rewrite_settings_text("PlayerSettings: 3\n", &identity()).unwrap_err().kind,
        FaultKind::Schema
    );
}

#[test]
fn identity_names() {
    let id = identity();
    assert_eq!(id.package_id(), "com.example.template.clean@1.2.3");
    assert_eq!(id.archive_name(), "com.example.template.clean.tgz");
    let d = TemplateIdentity::default();
    assert_eq!(d.package_id(), "com.misabiko.template.clean-urp@0.1.0");
    assert_eq!(d.archive_name(), "com.misabiko.template.clean-urp.tgz");
}

#[test]
fn paths_join_with_one_separator() {
    assert_eq!(join("a", "b"), "a/b");
    assert_eq!(join("a/", "b"), "a/b");
    assert_eq!(join("a\\", "b"), "a\\b");
    assert_eq!(join("", "b"), "b");
}

#[test]
fn extensions_follow_the_last_dot() {
    assert!(has_extension("x.tgz", "tgz"));
    assert!(has_extension("a.b.tgz", "tgz"));
    assert!(!has_extension("x.tgz.bak", "tgz"));
    assert!(!has_extension(".tgz", "tgz"));
    assert!(!has_extension("tgz", "tgz"));
    assert!(has_extension("x.", ""));
    assert!(!has_extension("..", ""));
    assert!(has_extension("..tgz", "tgz"));
    assert!(same_text("abc", "abc"));
    assert!(!same_text("abc", "abd"));
}

#[test]
fn settings_rewrite_twice_is_stable() {
    let once = rewrite_settings_text(SETTINGS, &identity()).unwrap();
    let twice = rewrite_settings_text(&once, &identity()).unwrap();
    assert_eq!(once, twice);
    let doc: serde_yaml::Value = serde_yaml::from_str(&twice).unwrap();
    let ps = doc.get("PlayerSettings").unwrap();
    assert_eq!(
        yaml_field(ps, "templatePackageId"),
        serde_yaml::Value::from("com.example.template.clean@1.2.3")
    );
}
