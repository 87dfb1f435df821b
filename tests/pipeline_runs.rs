use unity_template_packer::{
    Action, EditorScan, Fault, FaultKind, Layout, PackerConfig, Pipeline, ProjectScan, TemplateIdentity,
    UnityEditor, UnityProject,
};

fn identity() -> TemplateIdentity {
    TemplateIdentity {
        name: String::from("com.example.template.clean"),
        display_name: String::from("Clean"),
        version: String::from("1.2.3"),
        description: String::from("An empty project"),
        default_scene: String::from("Assets/Scenes/Main.unity"),
    }
}

fn packer_config(files: &[&str]) -> PackerConfig {
    PackerConfig {
        project: UnityProject::new(&ProjectScan { path: String::from("proj"), exists: true, has_marker: true })
            .unwrap(),
        editor: UnityEditor {
            path: String::from("ed"),
            templates_path: String::from("ed/tpl"),
            templates: files.iter().map(|f| String::from(*f)).collect(),
        },
    }
}

fn layout() -> Layout {
    Layout { root: String::from("work") }
}

fn pipeline() -> Pipeline {
    Pipeline::new(&packer_config(&["com.unity.template.3d-4.2.8.tgz"]), &layout(), &identity()).unwrap()
}

fn fault(kind: FaultKind, message: &str) -> Fault {
    Fault { kind, message: String::from(message) }
}

/// Runs the pipeline, answering each action with what `answer` says, and
/// returns the actions performed and the outcome.
fn drive(mut p: Pipeline, answer: &dyn Fn(usize, &Action) -> Result<(), Fault>) -> (Vec<Action>, Result<(), Fault>) {
    let mut done = Vec::new();
    loop {
        let a = p.current();
        if let Action::Finish { outcome } = a {
            return (done, outcome);
        }
        let o = answer(done.len(), &a);
        done.push(a);
        p.advance(o);
    }
}

fn is_cleanup(a: &Action) -> bool {
    matches!(a, Action::Cleanup { .. })
}

#[test]
fn successful_run_performs_the_plan_then_cleans_up() {
    let (done, outcome) = drive(pipeline(), &|_, _| Ok(()));
    assert!(outcome.is_ok());
    assert_eq!(done.len(), 13);
    match &done[0] {
        Action::Extract { archive, into } => {
            assert_eq!(archive, "ed/tpl/com.unity.template.3d-4.2.8.tgz");
            assert_eq!(into, "work");
        }
        other => panic!("unexpected first action {:?}", other),
    }
    match &done[1] {
        Action::RemoveTree { path } => assert_eq!(path, "work/package/ProjectData~/Assets"),
        other => panic!("unexpected action {:?}", other),
    }
    match &done[5] {
        Action::CopyTree { from, into } => {
            assert_eq!(from, "proj/Packages");
            assert_eq!(into, "work/package/ProjectData~");
        }
        other => panic!("unexpected action {:?}", other),
    }
    match &done[7] {
        Action::RemoveFile { path } => {
            assert_eq!(path, "work/package/ProjectData~/ProjectSettings/ProjectVersion.txt")
        }
        other => panic!("unexpected action {:?}", other),
    }
    match &done[8] {
        Action::RewriteManifest { path } => assert_eq!(path, "work/package/package.json"),
        other => panic!("unexpected action {:?}", other),
    }
    match &done[9] {
        Action::RewriteSettings { path } => {
            assert_eq!(path, "work/package/ProjectData~/ProjectSettings/ProjectSettings.asset")
        }
        other => panic!("unexpected action {:?}", other),
    }
    match &done[10] {
        Action::BuildArchive { source, entry, to } => {
            assert_eq!(source, "work/package");
            assert_eq!(entry, "package");
            assert_eq!(to, "work/com.example.template.clean.tgz.part");
        }
        other => panic!("unexpected action {:?}", other),
    }
    match &done[11] {
        Action::Publish { from, to } => {
            assert_eq!(from, "work/com.example.template.clean.tgz.part");
            assert_eq!(to, "work/com.example.template.clean.tgz");
        }
        other => panic!("unexpected action {:?}", other),
    }
    match &done[12] {
        Action::Cleanup { work_dir, partial } => {
            assert_eq!(work_dir, "work/package");
            assert_eq!(partial, "work/com.example.template.clean.tgz.part");
        }
        other => panic!("unexpected last action {:?}", other),
    }
    let published = done.iter().filter(|a| matches!(a, Action::Publish { .. })).count();
    assert_eq!(published, 1);
}

#[test]
fn every_failure_is_followed_by_cleanup() {
    for k in 0..12 {
        let (done, outcome) = drive(pipeline(), &|i, _| {
            if i == k { Err(fault(FaultKind::Io, "boom")) } else { Ok(()) }
        });
        assert_eq!(done.len(), k + 2);
        assert!(is_cleanup(done.last().unwrap()));
        assert_eq!(done.iter().filter(|a| is_cleanup(a)).count(), 1);
        let f = outcome.unwrap_err();
        assert_eq!(f.kind, FaultKind::Io);
        assert_eq!(f.message, "boom");
    }
}

#[test]
fn failed_rewrite_builds_no_archive() {
    for target in 0..2 {
        let (done, outcome) = drive(pipeline(), &|_, a| match (target, a) {
            (0, Action::RewriteManifest { .. }) => Err(fault(FaultKind::Format, "bad manifest")),
            (1, Action::RewriteSettings { .. }) => Err(fault(FaultKind::Schema, "no player settings")),
            _ => Ok(()),
        });
        assert!(!done.iter().any(|a| matches!(a, Action::BuildArchive { .. } | Action::Publish { .. })));
        assert!(is_cleanup(done.last().unwrap()));
        let kind = outcome.unwrap_err().kind;
        assert_eq!(kind, if target == 0 { FaultKind::Format } else { FaultKind::Schema });
    }
}

#[test]
fn missing_packages_directory_is_reported_after_cleanup() {
    let (done, outcome) = drive(pipeline(), &|_, a| match a {
        Action::CopyTree { from, .. } if from.ends_with("Packages") => {
            Err(fault(FaultKind::NotFound, "proj/Packages does not exist"))
        }
        _ => Ok(()),
    });
    assert_eq!(done.len(), 7);
    assert!(is_cleanup(&done[6]));
    assert_eq!(outcome.unwrap_err().kind, FaultKind::NotFound);
}

#[test]
fn first_error_wins_over_cleanup_error() {
    let (done, outcome) = drive(pipeline(), &|_, a| match a {
        Action::RewriteSettings { .. } => Err(fault(FaultKind::Schema, "first")),
        Action::Cleanup { .. } => Err(fault(FaultKind::Io, "second")),
        _ => Ok(()),
    });
    assert_eq!(done.len(), 11);
    let f = outcome.unwrap_err();
    assert_eq!(f.kind, FaultKind::Schema);
    assert_eq!(f.message, "first");
}

#[test]
fn cleanup_error_is_reported_after_success() {
    let (done, outcome) = drive(pipeline(), &|_, a| match a {
        Action::Cleanup { .. } => Err(fault(FaultKind::Io, "cannot remove")),
        _ => Ok(()),
    });
    assert_eq!(done.len(), 13);
    assert_eq!(outcome.unwrap_err().kind, FaultKind::Io);
}

#[test]
fn finished_run_stays_finished() {
    let mut p = pipeline();
    for _ in 0..13 {
        p.advance(Ok(()));
    }
    assert!(p.is_done());
    p.advance(Err(fault(FaultKind::Io, "late")));
    assert!(matches!(p.current(), Action::Finish { outcome: Ok(()) }));
}

#[test]
fn repeated_runs_perform_the_same_actions() {
    let (first, a) = drive(pipeline(), &|_, _| Ok(()));
    let (second, b) = drive(pipeline(), &|_, _| Ok(()));
    assert!(a.is_ok() && b.is_ok());
    assert_eq!(format!("{:?}", first), format!("{:?}", second));
}

#[test]
fn no_template_archive_stops_before_extraction() {
    let r = Pipeline::new(&packer_config(&["readme.txt", "notes"]), &layout(), &identity());
    match r {
        Err(f) => {
            assert_eq!(f.kind, FaultKind::NotFound);
            assert_eq!(f.message, "no template archive in ed/tpl");
        }
        Ok(_) => panic!("a run was planned without a template"),
    }
}

#[test]
fn base_template_is_preferred() {
    let p = Pipeline::new(
        &packer_config(&["a.tgz", "com.unity.template.3d-4.2.8.tgz", "z.tgz"]),
        &layout(),
        &identity(),
    )
    .unwrap();
    match p.current() {
        Action::Extract { archive, .. } => assert_eq!(archive, "ed/tpl/com.unity.template.3d-4.2.8.tgz"),
        other => panic!("unexpected first action {:?}", other),
    }
    let q = Pipeline::new(&packer_config(&["notes.txt", "b.tgz", "a.tgz"]), &layout(), &identity()).unwrap();
    match q.current() {
        Action::Extract { archive, .. } => assert_eq!(archive, "ed/tpl/b.tgz"),
        other => panic!("unexpected first action {:?}", other),
    }
}

#[test]
fn editor_scan_feeds_the_pipeline() {
    let scan = EditorScan {
        path: String::from("ed"),
        exists: true,
        templates_exist: true,
        template_files: vec![String::from("x.tgz")],
    };
    let editor = UnityEditor::new(&scan).unwrap();
    let cfg = PackerConfig { project: UnityProject { path: String::from("p") }, editor };
    let p = Pipeline::new(&cfg, &Layout { root: String::from(".") }, &identity()).unwrap();
    match p.current() {
        Action::Extract { archive, into } => {
            assert_eq!(archive, "ed/Editor/Data/Resources/PackageManager/ProjectTemplates/x.tgz");
            assert_eq!(into, ".");
        }
        other => panic!("unexpected first action {:?}", other),
    }
}
