use vstd::prelude::*;
use vstd::string::StrSliceExecFns;
use crate::paths::{join, joined, has_extension, extension_of};

verus! {

/// Where an editor installation keeps its project templates.
pub const TEMPLATES_SUBPATH: &'static str = "Editor/Data/Resources/PackageManager/ProjectTemplates";

/// The file whose presence marks a directory as a project.
pub const PROJECT_MARKER: &'static str = "ProjectSettings/ProjectVersion.txt";

/// The extension of a template archive.
pub const ARCHIVE_EXTENSION: &'static str = "tgz";

/// Why a project or editor path was not accepted.
#[derive(Debug, Clone, Copy, PartialEq, Eq, Structural)]
pub enum SetupError {
    EditorPathMissing,
    TemplatesPathMissing,
    NoTemplateArchive,
    ProjectPathMissing,
    ProjectMarkerMissing,
}

/// What was found on disk at an editor path.
pub struct EditorScan {
    pub path: String,
    /// `path` exists.
    pub exists: bool,
    /// The templates directory under `path` exists.
    pub templates_exist: bool,
    /// The names of the entries of the templates directory.
    pub template_files: Vec<String>,
}

/// What was found on disk at a project path.
pub struct ProjectScan {
    pub path: String,
    /// `path` exists.
    pub exists: bool,
    /// The project marker file under `path` exists.
    pub has_marker: bool,
}

pub struct UnityEditor {
    pub path: String,
    pub templates_path: String,
    /// The names of the entries of `templates_path`.
    pub templates: Vec<String>,
}

pub struct UnityProject {
    pub path: String,
}

pub struct PackerConfig {
    pub project: UnityProject,
    pub editor: UnityEditor,
}

pub enum Config {
    Packer(PackerConfig),
    GUI,
    Help,
}

pub open spec fn is_template_archive(name: Seq<char>) -> bool {
    extension_of(name) == Some(ARCHIVE_EXTENSION@)
}

pub open spec fn holds_template(files: Seq<String>) -> bool {
    exists|i: int| 0 <= i < files.len() && is_template_archive(#[trigger] files[i]@)
}

pub open spec fn templates_dir(path: Seq<char>) -> Seq<char> {
    joined(path, TEMPLATES_SUBPATH@)
}

pub open spec fn marker_file(path: Seq<char>) -> Seq<char> {
    joined(path, PROJECT_MARKER@)
}

/// What checking an editor scan gives: the error, or `None` when it is accepted.
pub open spec fn editor_error(scan: EditorScan) -> Option<SetupError> {
    if !scan.exists {
        Some(SetupError::EditorPathMissing)
    } else if !scan.templates_exist {
        Some(SetupError::TemplatesPathMissing)
    } else if !holds_template(scan.template_files@) {
        Some(SetupError::NoTemplateArchive)
    } else {
        None
    }
}

/// What checking a project scan gives: the error, or `None` when it is accepted.
pub open spec fn project_error(scan: ProjectScan) -> Option<SetupError> {
    if !scan.exists {
        Some(SetupError::ProjectPathMissing)
    } else if !scan.has_marker {
        Some(SetupError::ProjectMarkerMissing)
    } else {
        None
    }
}

/// A copy of a list of names.
pub fn copy_names(names: &Vec<String>) -> (r: Vec<String>)
    ensures
        r@ == names@,
{
    let mut r: Vec<String> = Vec::new();
    let mut i: usize = 0;
    while i < names.len()
        invariant
            i <= names@.len(),
            r@ == names@.subrange(0, i as int),
        decreases names@.len() - i,
    {
        r.push(names[i].clone());
        assert(r@ =~= names@.subrange(0, i + 1));
        i = i + 1;
    }
    assert(names@ =~= names@.subrange(0, names@.len() as int));
    r
}

/// Index of the first template archive among `files`.
pub fn first_template(files: &Vec<String>) -> (r: Option<usize>)
    ensures
        r is None <==> !holds_template(files@),
        r matches Some(i) ==> i < files@.len() && is_template_archive(files@[i as int]@)
            && forall|j: int| 0 <= j < i ==> !is_template_archive(#[trigger] files@[j]@),
{
    let mut i: usize = 0;
    while i < files.len()
        invariant
            i <= files@.len(),
            forall|j: int| 0 <= j < i ==> !is_template_archive(#[trigger] files@[j]@),
        decreases files@.len() - i,
    {
        if has_extension(files[i].as_str(), ARCHIVE_EXTENSION) {
            return Some(i);
        }
        i = i + 1;
    }
    None
}

impl UnityEditor {
    /// The templates directory of the editor installed at `path`.
    pub fn templates_path_of(path: &str) -> (r: String)
        ensures
            r@ == templates_dir(path@),
    {
        join(path, TEMPLATES_SUBPATH)
    }

    /// Accepts an editor installation whose templates directory holds at
    /// least one template archive.
    pub fn new(scan: &EditorScan) -> (r: Result<UnityEditor, SetupError>)
        ensures
            editor_error(*scan) matches Some(e) ==> r == Err::<UnityEditor, SetupError>(e),
            editor_error(*scan) is None ==> (r matches Ok(ed) && ed.path@ == scan.path@
                && ed.templates_path@ == templates_dir(scan.path@)
                && ed.templates@ == scan.template_files@),
    {
        if let Err(e) = UnityEditor::check_path(scan) {
            return Err(e);
        }
        if !scan.templates_exist {
            return Err(SetupError::TemplatesPathMissing);
        }
        if first_template(&scan.template_files).is_none() {
            return Err(SetupError::NoTemplateArchive);
        }
        Ok(UnityEditor {
            path: scan.path.clone(),
            templates_path: UnityEditor::templates_path_of(scan.path.as_str()),
            templates: copy_names(&scan.template_files),
        })
    }

    fn check_path(scan: &EditorScan) -> (r: Result<(), SetupError>)
        ensures
            r == (if scan.exists { Ok::<(), SetupError>(()) } else { Err(SetupError::EditorPathMissing) }),
    {
        if !scan.exists {
            return Err(SetupError::EditorPathMissing);
        }
        Ok(())
    }
}

impl UnityProject {
    /// The marker file that a project at `path` must hold.
    pub fn marker_path_of(path: &str) -> (r: String)
        ensures
            r@ == marker_file(path@),
    {
        join(path, PROJECT_MARKER)
    }

    /// Accepts a project directory that holds the project marker file.
    pub fn new(scan: &ProjectScan) -> (r: Result<UnityProject, SetupError>)
        ensures
            project_error(*scan) matches Some(e) ==> r == Err::<UnityProject, SetupError>(e),
            project_error(*scan) is None ==> (r matches Ok(p) && p.path@ == scan.path@),
    {
        if let Err(e) = UnityProject::check_path(scan) {
            return Err(e);
        }
        Ok(UnityProject { path: scan.path.clone() })
    }

    fn check_path(scan: &ProjectScan) -> (r: Result<(), SetupError>)
        ensures
            r == (match project_error(*scan) {
                Some(e) => Err::<(), SetupError>(e),
                None => Ok(()),
            }),
    {
        if !scan.exists {
            return Err(SetupError::ProjectPathMissing);
        }
        if !scan.has_marker {
            return Err(SetupError::ProjectMarkerMissing);
        }
        Ok(())
    }
}

impl Config {
    /// What the command line `args` (the program's name first) asks for.
    /// With a project path, and an editor path or none, it asks for packing:
    /// `project` is what was found at the project path, and `editor` what
    /// was found at the editor path, or with none given, at the installation
    /// that the user picked. The project is checked first. Anything else asks
    /// for help.
    pub fn new(args: &[String], project: &ProjectScan, editor: &EditorScan) -> (r: Result<Config, SetupError>)
        ensures
            args@.len() != 2 && args@.len() != 3 ==> r matches Ok(Config::Help),
            args@.len() == 2 || args@.len() == 3 ==> match project_error(*project) {
                Some(e) => r == Err::<Config, SetupError>(e),
                None => match editor_error(*editor) {
                    Some(e) => r == Err::<Config, SetupError>(e),
                    None => r matches Ok(Config::Packer(pc)) && pc.project.path@ == project.path@
                        && pc.editor.path@ == editor.path@
                        && pc.editor.templates_path@ == templates_dir(editor.path@)
                        && pc.editor.templates@ == editor.template_files@,
                },
            },
    {
        if args.len() != 2 && args.len() != 3 {
            return Ok(Config::Help);
        }
        let project = UnityProject::new(project)?;
        let editor = UnityEditor::new(editor)?;
        Ok(Config::Packer(PackerConfig { project, editor }))
    }
}

/// White space, as Unicode's White_Space property has it.
pub open spec fn is_blank(c: char) -> bool {
    ('\u{9}' <= c && c <= '\u{d}') || c == ' ' || c == '\u{85}' || c == '\u{a0}' || c == '\u{1680}'
        || ('\u{2000}' <= c && c <= '\u{200a}') || c == '\u{2028}' || c == '\u{2029}'
        || c == '\u{202f}' || c == '\u{205f}' || c == '\u{3000}'
}

/// `s` without the white space at its end.
pub open spec fn trimmed_end(s: Seq<char>) -> Seq<char>
    decreases s.len(),
{
    if s.len() > 0 && is_blank(s.last()) {
        trimmed_end(s.drop_last())
    } else {
        s
    }
}

pub open spec fn is_digit(c: char) -> bool {
    '0' <= c && c <= '9'
}

pub open spec fn all_digits(s: Seq<char>) -> bool {
    forall|i: int| 0 <= i < s.len() ==> is_digit(#[trigger] s[i])
}

/// The number that the decimal digits `s` write.
pub open spec fn digits_value(s: Seq<char>) -> int
    decreases s.len(),
{
    if s.len() == 0 {
        0
    } else {
        digits_value(s.drop_last()) * 10 + (s.last() as int - '0' as int)
    }
}

/// The index that an answer gives: after its end's white space is dropped, an
/// optional `+` and one or more decimal digits, whose value fits a `usize`.
pub open spec fn parsed_index(answer: Seq<char>) -> Option<int> {
    let t = trimmed_end(answer);
    let d = if t.len() > 0 && t[0] == '+' { t.drop_first() } else { t };
    if d.len() > 0 && all_digits(d) && digits_value(d) <= usize::MAX {
        Some(digits_value(d))
    } else {
        None
    }
}

proof fn lemma_digits_value_grows(s: Seq<char>, j: int)
    requires
        all_digits(s),
        0 <= j <= s.len(),
    ensures
        digits_value(s.subrange(0, j)) <= digits_value(s),
        0 <= digits_value(s.subrange(0, j)),
    decreases s.len(),
{
    if j < s.len() {
        lemma_digits_value_grows(s.drop_last(), j);
        assert(s.drop_last().subrange(0, j) =~= s.subrange(0, j));
        lemma_digits_value_grows(s.drop_last(), s.len() - 1);
        assert(s.drop_last().subrange(0, s.len() - 1) =~= s.drop_last());
    } else {
        assert(s.subrange(0, j) =~= s);
        if s.len() > 0 {
            lemma_digits_value_grows(s.drop_last(), s.len() - 1);
            assert(s.drop_last().subrange(0, s.len() - 1) =~= s.drop_last());
        }
    }
}

/// Which of `count` editor installations the user's answer picks: the
/// index it gives, where that is below `count`.
pub fn pick_editor(count: usize, answer: &str) -> (r: Option<usize>)
    ensures
        r == (match parsed_index(answer@) {
            Some(i) => if i < count { Some(i as usize) } else { None },
            None => None,
        }),
{
    let n = answer.unicode_len();
    let mut e: usize = n;
    assert(answer@.subrange(0, n as int) =~= answer@);
    while e > 0 && is_blank_char(answer.get_char(e - 1))
        invariant
            n == answer@.len(),
            e <= n,
            trimmed_end(answer@) == trimmed_end(answer@.subrange(0, e as int)),
        decreases e,
    {
        assert(answer@.subrange(0, e as int).drop_last() =~= answer@.subrange(0, e - 1));
        e = e - 1;
    }
    let ghost t = answer@.subrange(0, e as int);
    assert(trimmed_end(t) == t);
    let mut start: usize = 0;
    if e > 0 && answer.get_char(0) == '+' {
        start = 1;
    }
    let ghost d = answer@.subrange(start as int, e as int);
    assert(d =~= (if t.len() > 0 && t[0] == '+' { t.drop_first() } else { t }));
    assert(parsed_index(answer@) == (if d.len() > 0 && all_digits(d) && digits_value(d) <= usize::MAX {
        Some(digits_value(d))
    } else {
        None::<int>
    }));
    if start == e {
        return None;
    }
    let mut acc: usize = 0;
    let mut i: usize = start;
    while i < e
        invariant
            n == answer@.len(),
            start < e <= n,
            start <= i <= e,
            d == answer@.subrange(start as int, e as int),
            parsed_index(answer@) == (if d.len() > 0 && all_digits(d) && digits_value(d) <= usize::MAX {
                Some(digits_value(d))
            } else {
                None::<int>
            }),
            all_digits(answer@.subrange(start as int, i as int)),
            acc == digits_value(answer@.subrange(start as int, i as int)),
        decreases e - i,
    {
        let c = answer.get_char(i);
        if c < '0' || c > '9' {
            assert(d[i - start] == c);
            return None;
        }
        let v = (c as u32 - '0' as u32) as usize;
        let ghost next = answer@.subrange(start as int, i + 1);
        assert(next.drop_last() =~= answer@.subrange(start as int, i as int));
        if acc > (usize::MAX - v) / 10 {
            proof {
                assert(acc * 10 + v > usize::MAX) by (nonlinear_arith)
                    requires
                        acc > (usize::MAX - v) / 10,
                        v <= 9,
                ;
                if all_digits(d) {
                    lemma_digits_value_grows(d, i + 1 - start);
                    assert(d.subrange(0, i + 1 - start) =~= next);
                }
            }
            return None;
        }
        acc = acc * 10 + v;
        i = i + 1;
    }
    assert(answer@.subrange(start as int, i as int) =~= d);
    if acc < count {
        Some(acc)
    } else {
        None
    }
}

fn is_blank_char(c: char) -> (r: bool)
    ensures
        r == is_blank(c),
{
    ('\u{9}' <= c && c <= '\u{d}') || c == ' ' || c == '\u{85}' || c == '\u{a0}' || c == '\u{1680}'
        || ('\u{2000}' <= c && c <= '\u{200a}') || c == '\u{2028}' || c == '\u{2029}'
        || c == '\u{202f}' || c == '\u{205f}' || c == '\u{3000}'
}

} // verus!
