use vstd::prelude::*;
use vstd::string::StringExecFns;

verus! {

/// The fixed identity that a packed template is given: the values written
/// into its manifest and settings, whatever the source project held.
pub struct TemplateIdentity {
    /// The package identifier, such as `com.example.template.clean`.
    pub name: String,
    pub display_name: String,
    pub version: String,
    pub description: String,
    /// The scene that a project made from the template opens first.
    pub default_scene: String,
}

/// The identifier of the template package: `name@version`.
pub open spec fn package_id(id: TemplateIdentity) -> Seq<char> {
    id.name@ + seq!['@'] + id.version@
}

/// The file name of the packed template: `name.tgz`.
pub open spec fn archive_name(id: TemplateIdentity) -> Seq<char> {
    id.name@ + seq!['.', 't', 'g', 'z']
}

impl TemplateIdentity {
    pub fn package_id(&self) -> (r: String)
        ensures
            r@ == package_id(*self),
    {
        let mut r = self.name.clone();
        r.append("@");
        r.append(self.version.as_str());
        proof {
            reveal_strlit("@");
        }
        r
    }

    pub fn archive_name(&self) -> (r: String)
        ensures
            r@ == archive_name(*self),
    {
        let mut r = self.name.clone();
        r.append(".tgz");
        proof {
            reveal_strlit(".tgz");
        }
        r
    }
}

impl Default for TemplateIdentity {
    /// The clean Universal Render Pipeline template.
    fn default() -> (r: TemplateIdentity)
        ensures
            r.name@ == "com.misabiko.template.clean-urp"@,
            r.display_name@ == "Clean URP"@,
            r.version@ == "0.1.0"@,
            r.description@
                == "This is an empty 3D project that uses Unity's Universal Render Pipeline"@,
            r.default_scene@ == "Assets/Scenes/MainScene.unity"@,
    {
        TemplateIdentity {
            name: String::from_str("com.misabiko.template.clean-urp"),
            display_name: String::from_str("Clean URP"),
            version: String::from_str("0.1.0"),
            description: String::from_str(
                "This is an empty 3D project that uses Unity's Universal Render Pipeline",
            ),
            default_scene: String::from_str("Assets/Scenes/MainScene.unity"),
        }
    }
}

} // verus!
