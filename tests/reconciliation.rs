use hymofs::reconcile::{
    classify, injection_commands, join, plan_injection, removal_commands, Command, EntryClass,
    EntryKind, PendingOp, WalkEntry, trim_separators,
};

fn entry(rel: &[&str], kind: EntryKind) -> WalkEntry {
    WalkEntry {
        components: rel.iter().map(|c| c.to_string()).collect(),
        source: format!("/mod/{}", rel.join("/")),
        kind,
    }
}

fn sample_tree() -> Vec<WalkEntry> {
    vec![
        entry(&["a"], EntryKind::Directory),
        entry(&["a", "file.txt"], EntryKind::File),
        entry(&["a", "b"], EntryKind::Directory),
        entry(&["a", "b", "link"], EntryKind::Symlink),
        entry(&["a", "dev0"], EntryKind::CharDevice { rdev: 0 }),
        entry(&["a", "dev1"], EntryKind::CharDevice { rdev: 5 }),
    ]
}

fn dests(cmds: &[Command]) -> Vec<String> {
    cmds.iter()
        .map(|c| match c {
            Command::MarkDir { dir } => dir.clone(),
            Command::AddRule { dest, .. } => dest.clone(),
            Command::Hide { path } => path.clone(),
            Command::Delete { path } => path.clone(),
        })
        .collect()
}

#[test]
fn classification_of_kinds() {
    assert_eq!(classify(EntryKind::File), EntryClass::Redirect);
    assert_eq!(classify(EntryKind::Symlink), EntryClass::Redirect);
    assert_eq!(classify(EntryKind::CharDevice { rdev: 0 }), EntryClass::Hide);
    assert_eq!(classify(EntryKind::CharDevice { rdev: 5 }), EntryClass::Ignore);
    assert_eq!(classify(EntryKind::Directory), EntryClass::Ignore);
    assert_eq!(classify(EntryKind::Other), EntryClass::Ignore);
}

#[test]
fn joining_paths() {
    assert_eq!(join("/dst", "a"), "/dst/a");
    assert_eq!(join("/dst/", "a"), "/dst/a");
    assert_eq!(join("/", "a"), "/a");
    assert_eq!(join("", "a"), "a");
}

#[test]
fn trailing_separators_trimmed() {
    assert_eq!(trim_separators("/system/"), "/system");
    assert_eq!(trim_separators("/system//"), "/system");
    assert_eq!(trim_separators("/system"), "/system");
    assert_eq!(trim_separators("/"), "/");
    assert_eq!(trim_separators(""), "");
}

#[test]
fn sample_tree_plan() {
    let plan = plan_injection("/dst", &sample_tree());
    assert_eq!(plan.pending.len(), 3);
    match &plan.pending[0] {
        PendingOp::AddRedirect { dest, src } => {
            assert_eq!(dest, "/dst/a/file.txt");
            assert_eq!(src, "/mod/a/file.txt");
        }
        other => panic!("unexpected {:?}", other),
    }
    match &plan.pending[1] {
        PendingOp::AddRedirect { dest, src } => {
            assert_eq!(dest, "/dst/a/b/link");
            assert_eq!(src, "/mod/a/b/link");
        }
        other => panic!("unexpected {:?}", other),
    }
    match &plan.pending[2] {
        PendingOp::HideVirtual { dest } => assert_eq!(dest, "/dst/a/dev0"),
        other => panic!("unexpected {:?}", other),
    }
    let mut dirs = plan.injected_dirs.clone();
    dirs.sort();
    assert_eq!(dirs, vec!["/dst/a".to_string(), "/dst/a/b".to_string()]);
}

#[test]
fn directories_are_marked_first() {
    let cmds = injection_commands(true, "/dst", &sample_tree());
    assert_eq!(cmds.len(), 5);
    assert!(matches!(cmds[0], Command::MarkDir { .. }));
    assert!(matches!(cmds[1], Command::MarkDir { .. }));
    assert!(matches!(cmds[2], Command::AddRule { .. }));
    assert!(matches!(cmds[3], Command::AddRule { .. }));
    assert!(matches!(cmds[4], Command::Hide { .. }));
    assert_eq!(
        dests(&cmds[2..]),
        vec!["/dst/a/file.txt", "/dst/a/b/link", "/dst/a/dev0"]
    );
}

#[test]
fn absent_module_gives_no_commands() {
    assert!(injection_commands(false, "/dst", &sample_tree()).is_empty());
    assert!(removal_commands(false, "/dst", &sample_tree()).is_empty());
}

#[test]
fn removal_deletes_rule_bearing_entries() {
    let cmds = removal_commands(true, "/dst", &sample_tree());
    assert!(cmds.iter().all(|c| matches!(c, Command::Delete { .. })));
    assert_eq!(
        dests(&cmds),
        vec!["/dst/a/file.txt", "/dst/a/b/link", "/dst/a/dev0"]
    );
}

#[test]
fn removal_targets_match_injection() {
    let tree = sample_tree();
    let plan = plan_injection("/dst", &tree);
    let injected: Vec<String> = plan
        .pending
        .iter()
        .map(|o| match o {
            PendingOp::AddRedirect { dest, .. } => dest.clone(),
            PendingOp::HideVirtual { dest } => dest.clone(),
        })
        .collect();
    assert_eq!(dests(&removal_commands(true, "/dst", &tree)), injected);
}

#[test]
fn shared_parent_is_marked_once() {
    let tree = vec![
        entry(&["x", "one"], EntryKind::File),
        entry(&["x", "two"], EntryKind::File),
        entry(&["top"], EntryKind::File),
    ];
    let plan = plan_injection("/system/", &tree);
    assert_eq!(plan.injected_dirs, vec!["/system/x".to_string(), "/system".to_string()]);
    assert_eq!(plan.pending.len(), 3);
}

#[test]
fn empty_tree_and_root_entry() {
    let plan = plan_injection("/dst", &Vec::new());
    assert!(plan.injected_dirs.is_empty());
    assert!(plan.pending.is_empty());
    let root = vec![WalkEntry { components: Vec::new(), source: "/mod".to_string(), kind: EntryKind::File }];
    assert!(injection_commands(true, "/dst", &root).is_empty());
}
