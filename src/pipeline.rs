use vstd::prelude::*;
use vstd::string::StringExecFns;
use crate::paths::{join, joined, same_text};
use crate::config::{PackerConfig, PROJECT_MARKER, holds_template, is_template_archive, first_template};
use crate::template::{TemplateIdentity, archive_name};

verus! {

/// The directory at the top of a template archive: the working directory
/// once the archive is unpacked.
pub const WORK_DIR: &'static str = "package";

/// Where the project's own subtrees go, under the working directory.
pub const PROJECT_DATA: &'static str = "ProjectData~";

/// The package manifest, under the working directory.
pub const MANIFEST_FILE: &'static str = "package.json";

/// The settings document, under the project data directory.
pub const SETTINGS_FILE: &'static str = "ProjectSettings/ProjectSettings.asset";

pub const ASSETS_DIR: &'static str = "Assets";

pub const PACKAGES_DIR: &'static str = "Packages";

pub const SETTINGS_DIR: &'static str = "ProjectSettings";

/// The template archive taken when an editor ships it.
pub const BASE_TEMPLATE: &'static str = "com.unity.template.3d-4.2.8.tgz";

/// The suffix of the file that the archive is written to before it is
/// put in place.
pub const PARTIAL_SUFFIX: &'static str = ".part";

/// The kinds of failure that a run reports.
#[derive(Debug, Clone, Copy, PartialEq, Eq, Structural)]
pub enum FaultKind {
    /// A required path, file or document section is missing.
    NotFound,
    /// An archive or a structured document does not parse, or cannot be written out.
    Format,
    /// A parsed document lacks an expected section.
    Schema,
    /// Reading, writing, copying or removing failed.
    Io,
}

/// A failure, with its kind and a message for people.
#[derive(Debug)]
pub struct Fault {
    pub kind: FaultKind,
    pub message: String,
}

impl Fault {
    pub fn new(kind: FaultKind, message: &str) -> (r: Fault)
        ensures
            r.kind == kind,
            r.message@ == message@,
    {
        Fault { kind, message: message.to_owned() }
    }

    pub fn duplicate(&self) -> (r: Fault)
        ensures
            r == *self,
    {
        Fault { kind: self.kind, message: self.message.clone() }
    }
}

/// Where a run works: the template is unpacked under `root` and the packed
/// template is written there.
pub struct Layout {
    pub root: String,
}

/// One piece of outside work that a run asks for.
#[derive(Debug)]
pub enum Action {
    /// Unpack the gzip-compressed tar archive `archive` into the directory `into`.
    Extract { archive: String, into: String },
    /// Remove the directory tree `path`, if it is there.
    RemoveTree { path: String },
    /// Copy the directory tree `from` into the directory `into`, under its own name.
    CopyTree { from: String, into: String },
    /// Remove the file `path`.
    RemoveFile { path: String },
    /// Rewrite the package manifest at `path` (see `rewrite_manifest_text`).
    RewriteManifest { path: String },
    /// Rewrite the settings document at `path` (see `rewrite_settings_text`).
    RewriteSettings { path: String },
    /// Write the tree `source` as `entry` into a new gzip-compressed tar archive `to`.
    BuildArchive { source: String, entry: String, to: String },
    /// Move the file `from` to `to`, replacing what is there.
    Publish { from: String, to: String },
    /// Remove the directory tree `work_dir` and the file `partial`, where present.
    Cleanup { work_dir: String, partial: String },
    /// Nothing is left to do; the run ended so.
    Finish { outcome: Result<(), Fault> },
}

/// What an action is, with its paths as character sequences.
pub enum Step {
    Extract { archive: Seq<char>, into: Seq<char> },
    RemoveTree { path: Seq<char> },
    CopyTree { from: Seq<char>, into: Seq<char> },
    RemoveFile { path: Seq<char> },
    RewriteManifest { path: Seq<char> },
    RewriteSettings { path: Seq<char> },
    BuildArchive { source: Seq<char>, entry: Seq<char>, to: Seq<char> },
    Publish { from: Seq<char>, to: Seq<char> },
    Cleanup { work_dir: Seq<char>, partial: Seq<char> },
    Finish { outcome: Result<(), Fault> },
}

impl View for Action {
    type V = Step;

    open spec fn view(&self) -> Step {
        match self {
            Action::Extract { archive, into } => Step::Extract { archive: archive@, into: into@ },
            Action::RemoveTree { path } => Step::RemoveTree { path: path@ },
            Action::CopyTree { from, into } => Step::CopyTree { from: from@, into: into@ },
            Action::RemoveFile { path } => Step::RemoveFile { path: path@ },
            Action::RewriteManifest { path } => Step::RewriteManifest { path: path@ },
            Action::RewriteSettings { path } => Step::RewriteSettings { path: path@ },
            Action::BuildArchive { source, entry, to } => Step::BuildArchive {
                source: source@,
                entry: entry@,
                to: to@,
            },
            Action::Publish { from, to } => Step::Publish { from: from@, to: to@ },
            Action::Cleanup { work_dir, partial } => Step::Cleanup {
                work_dir: work_dir@,
                partial: partial@,
            },
            Action::Finish { outcome } => Step::Finish { outcome: *outcome },
        }
    }
}

impl Action {
    pub fn duplicate(&self) -> (r: Action)
        ensures
            r@ == self@,
    {
        match self {
            Action::Extract { archive, into } => Action::Extract {
                archive: archive.clone(),
                into: into.clone(),
            },
            Action::RemoveTree { path } => Action::RemoveTree { path: path.clone() },
            Action::CopyTree { from, into } => Action::CopyTree {
                from: from.clone(),
                into: into.clone(),
            },
            Action::RemoveFile { path } => Action::RemoveFile { path: path.clone() },
            Action::RewriteManifest { path } => Action::RewriteManifest { path: path.clone() },
            Action::RewriteSettings { path } => Action::RewriteSettings { path: path.clone() },
            Action::BuildArchive { source, entry, to } => Action::BuildArchive {
                source: source.clone(),
                entry: entry.clone(),
                to: to.clone(),
            },
            Action::Publish { from, to } => Action::Publish { from: from.clone(), to: to.clone() },
            Action::Cleanup { work_dir, partial } => Action::Cleanup {
                work_dir: work_dir.clone(),
                partial: partial.clone(),
            },
            Action::Finish { outcome } => Action::Finish { outcome: duplicate_outcome(outcome) },
        }
    }
}

pub fn duplicate_outcome(o: &Result<(), Fault>) -> (r: Result<(), Fault>)
    ensures
        r == *o,
{
    match o {
        Ok(u) => Ok(*u),
        Err(e) => Err(e.duplicate()),
    }
}

/// Where a run stands.
pub enum Phase {
    /// Carrying out the plan.
    Working,
    /// Removing what the run left, after the plan ended or failed at `first_error`.
    CleaningUp { first_error: Option<Fault> },
    /// Ended, with this outcome.
    Done { outcome: Result<(), Fault> },
}

/// The decisions of one packing run: which action comes next, given how the
/// previous ones went. The caller performs each action and reports back.
pub struct Pipeline {
    plan: Vec<Action>,
    cleanup: Action,
    next: usize,
    phase: Phase,
}

pub struct PipelineView {
    /// The work, in order.
    pub plan: Seq<Step>,
    /// What removes the run's leftovers.
    pub cleanup: Step,
    /// The plan's action under way, while working.
    pub next: int,
    pub phase: Phase,
}

impl View for Pipeline {
    type V = PipelineView;

    closed spec fn view(&self) -> PipelineView {
        PipelineView {
            plan: self.plan@.map_values(|a: Action| a@),
            cleanup: self.cleanup@,
            next: self.next as int,
            phase: self.phase,
        }
    }
}

impl PipelineView {
    pub open spec fn wf(self) -> bool {
        &&& 0 <= self.next < self.plan.len()
        &&& self.cleanup is Cleanup
        &&& forall|i: int|
            0 <= i < self.plan.len() ==> !(#[trigger] self.plan[i] is Cleanup)
                && !(self.plan[i] is Finish)
    }

    pub open spec fn is_done(self) -> bool {
        match self.phase {
            Phase::Done { .. } => true,
            _ => false,
        }
    }

    /// The action asked for now.
    pub open spec fn current(self) -> Step {
        match self.phase {
            Phase::Working => self.plan[self.next],
            Phase::CleaningUp { .. } => self.cleanup,
            Phase::Done { outcome } => Step::Finish { outcome },
        }
    }

    /// Where the run stands once the current action ended with `outcome`:
    /// the next planned action after a success, the cleanup after a failure
    /// or after the last action, and the end after the cleanup, reporting the
    /// first failure of the plan, else how the cleanup went.
    pub open spec fn after(self, outcome: Result<(), Fault>) -> PipelineView {
        match self.phase {
            Phase::Working => match outcome {
                Ok(()) => if self.next < self.plan.len() - 1 {
                    PipelineView { next: self.next + 1, ..self }
                } else {
                    PipelineView { phase: Phase::CleaningUp { first_error: None }, ..self }
                },
                Err(e) => PipelineView {
                    phase: Phase::CleaningUp { first_error: Some(e) },
                    ..self
                },
            },
            Phase::CleaningUp { first_error } => PipelineView {
                phase: Phase::Done {
                    outcome: match first_error {
                        Some(e) => Err(e),
                        None => outcome,
                    },
                },
                ..self
            },
            Phase::Done { .. } => self,
        }
    }
}

/// Where a run stands after the outcomes `outcomes`, reported in turn.
pub open spec fn run(s: PipelineView, outcomes: Seq<Result<(), Fault>>) -> PipelineView
    decreases outcomes.len(),
{
    if outcomes.len() == 0 || s.is_done() {
        s
    } else {
        run(s.after(outcomes[0]), outcomes.drop_first())
    }
}

/// The actions performed while the outcomes `outcomes` are reported in turn.
pub open spec fn performed(s: PipelineView, outcomes: Seq<Result<(), Fault>>) -> Seq<Step>
    decreases outcomes.len(),
{
    if outcomes.len() == 0 || s.is_done() {
        seq![]
    } else {
        seq![s.current()] + performed(s.after(outcomes[0]), outcomes.drop_first())
    }
}

pub open spec fn work_dir(root: Seq<char>) -> Seq<char> {
    joined(root, WORK_DIR@)
}

pub open spec fn project_data(root: Seq<char>) -> Seq<char> {
    joined(work_dir(root), PROJECT_DATA@)
}

pub open spec fn output_file(root: Seq<char>, name: Seq<char>) -> Seq<char> {
    joined(root, name)
}

pub open spec fn partial_file(root: Seq<char>, name: Seq<char>) -> Seq<char> {
    output_file(root, name) + PARTIAL_SUFFIX@
}

/// The work of a run that packs `project` with the template `archive` under
/// `root` into the file `name` there.
pub open spec fn planned(root: Seq<char>, project: Seq<char>, archive: Seq<char>, name: Seq<char>) -> Seq<Step> {
    let data = project_data(root);
    seq![
        Step::Extract { archive, into: root },
        Step::RemoveTree { path: joined(data, ASSETS_DIR@) },
        Step::RemoveTree { path: joined(data, PACKAGES_DIR@) },
        Step::RemoveTree { path: joined(data, SETTINGS_DIR@) },
        Step::CopyTree { from: joined(project, ASSETS_DIR@), into: data },
        Step::CopyTree { from: joined(project, PACKAGES_DIR@), into: data },
        Step::CopyTree { from: joined(project, SETTINGS_DIR@), into: data },
        Step::RemoveFile { path: joined(data, PROJECT_MARKER@) },
        Step::RewriteManifest { path: joined(work_dir(root), MANIFEST_FILE@) },
        Step::RewriteSettings { path: joined(data, SETTINGS_FILE@) },
        Step::BuildArchive {
            source: work_dir(root),
            entry: WORK_DIR@,
            to: partial_file(root, name),
        },
        Step::Publish { from: partial_file(root, name), to: output_file(root, name) },
    ]
}

/// A run that has not started yet.
pub open spec fn initial(root: Seq<char>, project: Seq<char>, archive: Seq<char>, name: Seq<char>) -> PipelineView {
    PipelineView {
        plan: planned(root, project, archive, name),
        cleanup: Step::Cleanup { work_dir: work_dir(root), partial: partial_file(root, name) },
        next: 0,
        phase: Phase::Working,
    }
}

/// Whether `files[i]` is the template to unpack: the first file named as
/// the base template, or where none is, the first template archive.
pub open spec fn is_chosen_template(files: Seq<String>, i: int) -> bool {
    &&& 0 <= i < files.len()
    &&& if exists|j: int| 0 <= j < files.len() && (#[trigger] files[j])@ == BASE_TEMPLATE@ {
        &&& files[i]@ == BASE_TEMPLATE@
        &&& forall|j: int| 0 <= j < i ==> (#[trigger] files[j])@ != BASE_TEMPLATE@
    } else {
        &&& is_template_archive(files[i]@)
        &&& forall|j: int| 0 <= j < i ==> !is_template_archive((#[trigger] files[j])@)
    }
}

/// Picks the template archive to unpack among the entries `files` of an
/// editor's templates directory.
pub fn choose_template(files: &Vec<String>) -> (r: Option<usize>)
    ensures
        r is None <==> !holds_template(files@),
        r matches Some(i) ==> is_chosen_template(files@, i as int),
{
    let mut i: usize = 0;
    while i < files.len()
        invariant
            i <= files@.len(),
            forall|j: int| 0 <= j < i ==> (#[trigger] files@[j])@ != BASE_TEMPLATE@,
        decreases files@.len() - i,
    {
        if same_text(files[i].as_str(), BASE_TEMPLATE) {
            proof {
                reveal_strlit("com.unity.template.3d-4.2.8.tgz");
                reveal_strlit("tgz");
                let k = files@[i as int]@;
                assert(k.len() == 31);
                reveal_with_fuel(crate::paths::last_dot_before, 5);
                assert(crate::paths::last_dot_before(k, 31) == 27);
                assert(k.subrange(28, 31) =~= "tgz"@);
                assert(is_template_archive(files@[i as int]@));
            }
            return Some(i);
        }
        i = i + 1;
    }
    first_template(files)
}

proof fn lemma_chosen_template_unique(files: Seq<String>, i: int, j: int)
    requires
        is_chosen_template(files, i),
        is_chosen_template(files, j),
    ensures
        i == j,
{
    if i < j {
        assert(files[i]@ == files[i]@);
    } else if j < i {
        assert(files[j]@ == files[j]@);
    }
}

impl Pipeline {
    /// Plans the run that packs `config.project` with a template of
    /// `config.editor`, under `layout.root`, into the file named after
    /// `identity`. Fails with `NotFound`, before any work, where the editor
    /// offers no template archive.
    pub fn new(config: &PackerConfig, layout: &Layout, identity: &TemplateIdentity) -> (r: Result<Pipeline, Fault>)
        ensures
            !holds_template(config.editor.templates@) ==> (r matches Err(f) && f.kind == FaultKind::NotFound),
            holds_template(config.editor.templates@) ==> (r matches Ok(p) && p@.wf() && exists|i: int|
                is_chosen_template(config.editor.templates@, i) && p@ == initial(
                    layout.root@,
                    config.project.path@,
                    joined(config.editor.templates_path@, (#[trigger] config.editor.templates@[i])@),
                    archive_name(*identity),
                )),
    {
        let chosen = choose_template(&config.editor.templates);
        let i = match chosen {
            Some(i) => i,
            None => {
                let mut m = String::from_str("no template archive in ");
                m.append(config.editor.templates_path.as_str());
                return Err(Fault { kind: FaultKind::NotFound, message: m });
            },
        };
        let archive = join(config.editor.templates_path.as_str(), config.editor.templates[i].as_str());
        let root = layout.root.as_str();
        let project = config.project.path.as_str();
        let name = identity.archive_name();
        let work = join(root, WORK_DIR);
        let data = join(work.as_str(), PROJECT_DATA);
        let output = join(root, name.as_str());
        let mut partial = output.clone();
        partial.append(PARTIAL_SUFFIX);

        let mut plan: Vec<Action> = Vec::new();
        plan.push(Action::Extract { archive, into: layout.root.clone() });
        plan.push(Action::RemoveTree { path: join(data.as_str(), ASSETS_DIR) });
        plan.push(Action::RemoveTree { path: join(data.as_str(), PACKAGES_DIR) });
        plan.push(Action::RemoveTree { path: join(data.as_str(), SETTINGS_DIR) });
        plan.push(Action::CopyTree { from: join(project, ASSETS_DIR), into: data.clone() });
        plan.push(Action::CopyTree { from: join(project, PACKAGES_DIR), into: data.clone() });
        plan.push(Action::CopyTree { from: join(project, SETTINGS_DIR), into: data.clone() });
        plan.push(Action::RemoveFile { path: join(data.as_str(), PROJECT_MARKER) });
        plan.push(Action::RewriteManifest { path: join(work.as_str(), MANIFEST_FILE) });
        plan.push(Action::RewriteSettings { path: join(data.as_str(), SETTINGS_FILE) });
        plan.push(Action::BuildArchive {
            source: work.clone(),
            entry: WORK_DIR.to_owned(),
            to: partial.clone(),
        });
        plan.push(Action::Publish { from: partial.clone(), to: output });
        let cleanup = Action::Cleanup { work_dir: work, partial };
        let p = Pipeline { plan, cleanup, next: 0, phase: Phase::Working };
        proof {
            assert(p@.plan =~= planned(
                layout.root@,
                config.project.path@,
                joined(config.editor.templates_path@, config.editor.templates@[i as int]@),
                archive_name(*identity),
            ));
        }
        Ok(p)
    }

    /// The action to perform now.
    pub fn current(&self) -> (r: Action)
        requires
            self@.wf(),
        ensures
            r@ == self@.current(),
    {
        match &self.phase {
            Phase::Working => self.plan[self.next].duplicate(),
            Phase::CleaningUp { .. } => self.cleanup.duplicate(),
            Phase::Done { outcome } => Action::Finish { outcome: duplicate_outcome(outcome) },
        }
    }

    /// Reports how the current action went.
    pub fn advance(&mut self, outcome: Result<(), Fault>)
        requires
            old(self)@.wf(),
        ensures
            final(self)@ == old(self)@.after(outcome),
            final(self)@.wf(),
    {
        let mut phase = Phase::Working;
        std::mem::swap(&mut self.phase, &mut phase);
        match phase {
            Phase::Working => match outcome {
                Ok(_) => {
                    if self.next < self.plan.len() - 1 {
                        self.next = self.next + 1;
                    } else {
                        self.phase = Phase::CleaningUp { first_error: None };
                    }
                },
                Err(e) => {
                    self.phase = Phase::CleaningUp { first_error: Some(e) };
                },
            },
            Phase::CleaningUp { first_error } => {
                let end = match first_error {
                    Some(e) => Err(e),
                    None => outcome,
                };
                self.phase = Phase::Done { outcome: end };
            },
            Phase::Done { outcome: end } => {
                self.phase = Phase::Done { outcome: end };
            },
        }
    }

    pub fn is_done(&self) -> (r: bool)
        ensures
            r == self@.is_done(),
    {
        match self.phase {
            Phase::Done { .. } => true,
            _ => false,
        }
    }
}

/// A run from the working phase performs the plan's actions up to the first
/// failure, or all of them, and then the cleanup; it ends with that failure,
/// or else with the cleanup's outcome. Returns the index of the last planned
/// action performed.
proof fn lemma_working_run(s: PipelineView, outs: Seq<Result<(), Fault>>) -> (m: int)
    requires
        s.wf(),
        s.phase is Working,
        run(s, outs).is_done(),
    ensures
        s.next <= m < s.plan.len(),
        outs.len() >= m - s.next + 2,
        performed(s, outs) == s.plan.subrange(s.next, m + 1).push(s.cleanup),
        forall|k: int| s.next <= k < m ==> (#[trigger] outs[k - s.next]) is Ok,
        m + 1 < s.plan.len() ==> outs[m - s.next] is Err,
        run(s, outs).phase == (Phase::Done {
            outcome: match outs[m - s.next] {
                Err(e) => Err(e),
                Ok(_) => outs[m - s.next + 1],
            },
        }),
    decreases outs.len(),
{
    let rest = outs.drop_first();
    let s1 = s.after(outs[0]);
    if outs[0] is Ok && s.next + 1 < s.plan.len() {
        let m = lemma_working_run(s1, rest);
        assert(performed(s, outs) =~= s.plan.subrange(s.next, m + 1).push(s.cleanup));
        assert forall|k: int| s.next <= k < m implies (#[trigger] outs[k - s.next]) is Ok by {
            if k > s.next {
                assert(outs[k - s.next] == rest[k - s1.next]);
            }
        }
        assert(outs[m - s.next] == rest[m - s1.next]);
        assert(outs[m - s.next + 1] == rest[m - s1.next + 1]);
        m
    } else {
        // the plan ends here: s1 cleans up, and the run ends after that
        assert(run(s, outs) == run(s1, rest));
        assert(rest.len() > 0) by {
            if rest.len() == 0 {
                assert(run(s1, rest) == s1);
            }
        }
        let rest2 = rest.drop_first();
        let s2 = s1.after(rest[0]);
        assert(run(s1, rest) == run(s2, rest2));
        assert(run(s2, rest2) == s2);
        assert(performed(s2, rest2) =~= Seq::<Step>::empty());
        assert(performed(s1, rest) =~= seq![s.cleanup]);
        assert(performed(s, outs) =~= s.plan.subrange(s.next, s.next + 1).push(s.cleanup));
        s.next
    }
}

/// Which kind of action stands where in a plan.
proof fn lemma_planned_kinds(root: Seq<char>, project: Seq<char>, archive: Seq<char>, name: Seq<char>)
    ensures
        ({
            let p = planned(root, project, archive, name);
            &&& p.len() == 12
            &&& forall|i: int| 0 <= i < 12 ==> {
                &&& (#[trigger] p[i] is RewriteManifest || p[i] is RewriteSettings) ==> i == 8 || i == 9
                &&& p[i] is BuildArchive ==> i == 10
                &&& p[i] is Publish ==> i == 11
                &&& !(p[i] is Cleanup)
                &&& !(p[i] is Finish)
            }
        }),
{
    let p = planned(root, project, archive, name);
    assert forall|i: int| 0 <= i < 12 implies {
        &&& (#[trigger] p[i] is RewriteManifest || p[i] is RewriteSettings) ==> i == 8 || i == 9
        &&& p[i] is BuildArchive ==> i == 10
        &&& p[i] is Publish ==> i == 11
        &&& !(p[i] is Cleanup)
        &&& !(p[i] is Finish)
    } by {
        assert(i == 0 || i == 1 || i == 2 || i == 3 || i == 4 || i == 5 || i == 6 || i == 7
            || i == 8 || i == 9 || i == 10 || i == 11);
    }
}

/// Every run starts by unpacking the template, and ends by removing what it
/// left behind, once: the last action performed is the cleanup, and no
/// action before it is one. A
/// run that succeeds has performed every planned action once and in order,
/// so it has published the packed template exactly once, to the output file.
pub proof fn lemma_run_always_cleans_up(
    root: Seq<char>,
    project: Seq<char>,
    archive: Seq<char>,
    name: Seq<char>,
    outs: Seq<Result<(), Fault>>,
)
    requires
        run(initial(root, project, archive, name), outs).is_done(),
    ensures
        ({
            let s = initial(root, project, archive, name);
            let steps = performed(s, outs);
            &&& steps.len() >= 2
            &&& steps[0] == (Step::Extract { archive, into: root })
            &&& steps.last() == (Step::Cleanup { work_dir: work_dir(root), partial: partial_file(root, name) })
            &&& forall|i: int| 0 <= i < steps.len() - 1 ==> !(#[trigger] steps[i] is Cleanup)
            &&& run(s, outs).phase == (Phase::Done { outcome: Ok(()) }) ==> {
                &&& steps == s.plan.push(s.cleanup)
                &&& steps[11] == (Step::Publish { from: partial_file(root, name), to: output_file(root, name) })
                &&& forall|i: int| 0 <= i < steps.len() && i != 11 ==> !(#[trigger] steps[i] is Publish)
            }
        }),
{
    let s = initial(root, project, archive, name);
    let m = lemma_working_run(s, outs);
    let steps = performed(s, outs);
    lemma_planned_kinds(root, project, archive, name);
    assert forall|i: int| 0 <= i < steps.len() - 1 implies !(#[trigger] steps[i] is Cleanup) by {
        assert(steps[i] == s.plan[i]);
    }
    if run(s, outs).phase == (Phase::Done { outcome: Ok(()) }) {
        assert(m + 1 == s.plan.len());
        assert(steps =~= s.plan.push(s.cleanup));
    }
}

/// A run that fails on any action reports that failure and still cleans up
/// right after it; no later planned action is performed.
pub proof fn lemma_failure_is_reported_after_cleanup(
    root: Seq<char>,
    project: Seq<char>,
    archive: Seq<char>,
    name: Seq<char>,
    outs: Seq<Result<(), Fault>>,
    k: int,
)
    requires
        run(initial(root, project, archive, name), outs).is_done(),
        0 <= k < performed(initial(root, project, archive, name), outs).len(),
        outs[k] is Err,
        !(performed(initial(root, project, archive, name), outs)[k] is Cleanup),
    ensures
        ({
            let s = initial(root, project, archive, name);
            let steps = performed(s, outs);
            &&& k < s.plan.len()
            &&& steps == s.plan.subrange(0, k + 1).push(s.cleanup)
            &&& run(s, outs).phase == (Phase::Done { outcome: outs[k] })
        }),
{
    let s = initial(root, project, archive, name);
    let m = lemma_working_run(s, outs);
    if k < m {
        assert(outs[k - s.next] is Ok);
    }
    assert(k == m);
}

/// A run whose rewrite of the manifest or of the settings document fails
/// builds no archive and publishes none; it still removes its working
/// directory and reports that failure.
pub proof fn lemma_failed_rewrite_publishes_nothing(
    root: Seq<char>,
    project: Seq<char>,
    archive: Seq<char>,
    name: Seq<char>,
    outs: Seq<Result<(), Fault>>,
    k: int,
)
    requires
        run(initial(root, project, archive, name), outs).is_done(),
        0 <= k < performed(initial(root, project, archive, name), outs).len(),
        performed(initial(root, project, archive, name), outs)[k] is RewriteManifest
            || performed(initial(root, project, archive, name), outs)[k] is RewriteSettings,
        outs[k] is Err,
    ensures
        ({
            let s = initial(root, project, archive, name);
            let steps = performed(s, outs);
            &&& forall|i: int| 0 <= i < steps.len() ==> !(#[trigger] steps[i] is BuildArchive) && !(steps[i] is Publish)
            &&& steps.last() == s.cleanup
            &&& run(s, outs).phase == (Phase::Done { outcome: outs[k] })
        }),
{
    let s = initial(root, project, archive, name);
    lemma_failure_is_reported_after_cleanup(root, project, archive, name, outs, k);
    let steps = performed(s, outs);
    lemma_planned_kinds(root, project, archive, name);
    assert(steps[k] == s.plan[k]);
    assert forall|i: int| 0 <= i < steps.len() implies !(#[trigger] steps[i] is BuildArchive) && !(steps[i] is Publish) by {
        if i <= k {
            assert(steps[i] == s.plan[i]);
        }
    }
}

/// Runs carry nothing over: two successful runs on the same inputs perform
/// the same actions, each ending by removing its working directory and each
/// publishing to the same output file, which the later one replaces.
pub proof fn lemma_repeated_runs_agree(
    root: Seq<char>,
    project: Seq<char>,
    archive: Seq<char>,
    name: Seq<char>,
    first: Seq<Result<(), Fault>>,
    second: Seq<Result<(), Fault>>,
)
    requires
        run(initial(root, project, archive, name), first).phase == (Phase::Done { outcome: Ok(()) }),
        run(initial(root, project, archive, name), second).phase == (Phase::Done { outcome: Ok(()) }),
    ensures
        performed(initial(root, project, archive, name), first) == performed(initial(root, project, archive, name), second),
{
    lemma_run_always_cleans_up(root, project, archive, name, first);
    lemma_run_always_cleans_up(root, project, archive, name, second);
}

/// The archive is built only once every earlier action of the run, the
/// unpacking, the overlay and both rewrites included, has succeeded.
pub proof fn lemma_archive_only_after_every_edit(
    root: Seq<char>,
    project: Seq<char>,
    archive: Seq<char>,
    name: Seq<char>,
    outs: Seq<Result<(), Fault>>,
    i: int,
)
    requires
        run(initial(root, project, archive, name), outs).is_done(),
        0 <= i < performed(initial(root, project, archive, name), outs).len(),
        performed(initial(root, project, archive, name), outs)[i] is BuildArchive,
    ensures
        i == 10,
        forall|j: int| 0 <= j < i ==> (#[trigger] outs[j]) is Ok,
{
    let s = initial(root, project, archive, name);
    let m = lemma_working_run(s, outs);
    lemma_planned_kinds(root, project, archive, name);
    let steps = performed(s, outs);
    assert(i <= m) by {
        if i == m + 1 {
            assert(steps[i] == s.cleanup);
        }
    }
    assert(steps[i] == s.plan[i]);
    assert forall|j: int| 0 <= j < i implies (#[trigger] outs[j]) is Ok by {
        assert(outs[j - s.next] is Ok);
    }
}

/// Planning depends on its inputs alone: two runs planned for the same
/// project, editor templates, root and identity start from the same state,
/// whatever runs came before them.
pub proof fn lemma_planning_depends_on_inputs_only(
    files: Seq<String>,
    templates_path: Seq<char>,
    root: Seq<char>,
    project: Seq<char>,
    name: Seq<char>,
    first: PipelineView,
    second: PipelineView,
)
    requires
        exists|i: int| is_chosen_template(files, i)
            && first == initial(root, project, joined(templates_path, (#[trigger] files[i])@), name),
        exists|i: int| is_chosen_template(files, i)
            && second == initial(root, project, joined(templates_path, (#[trigger] files[i])@), name),
    ensures
        first == second,
{
    let i = choose|i: int| is_chosen_template(files, i)
        && first == initial(root, project, joined(templates_path, (#[trigger] files[i])@), name);
    let j = choose|j: int| is_chosen_template(files, j)
        && second == initial(root, project, joined(templates_path, (#[trigger] files[j])@), name);
    lemma_chosen_template_unique(files, i, j);
}

} // verus!
