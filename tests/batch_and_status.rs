use hymofs::batch::Batch;
use hymofs::reconcile::Command;
use hymofs::{HymoFs, HymoFsStatus};

fn paths(names: &[&str]) -> Vec<Command> {
    names.iter().map(|n| Command::Delete { path: n.to_string() }).collect()
}

#[test]
fn failure_mid_batch_does_not_stop_it() {
    let mut batch = Batch::new(paths(&["/a", "/b", "/c", "/d"]));
    let mut attempted = Vec::new();
    while let Some(cmd) = batch.next_command() {
        let path = match cmd {
            Command::Delete { path } => path.clone(),
            other => panic!("unexpected {:?}", other),
        };
        let ok = path != "/b";
        attempted.push(path);
        batch.record(ok);
    }
    assert_eq!(attempted, vec!["/a", "/b", "/c", "/d"]);
    assert_eq!(batch.failures(), 1);
    assert!(batch.is_done());
}

#[test]
fn every_failure_is_counted() {
    let mut batch = Batch::new(paths(&["/a", "/b"]));
    assert!(!batch.is_done());
    batch.record(false);
    batch.record(false);
    assert!(batch.is_done());
    assert!(batch.next_command().is_none());
    assert_eq!(batch.failures(), 2);
}

#[test]
fn empty_batch_is_done() {
    let batch = Batch::new(Vec::new());
    assert!(batch.is_done());
    assert_eq!(batch.failures(), 0);
}

#[test]
fn status_follows_presence() {
    assert_eq!(HymoFs::status_from_presence(true), HymoFsStatus::Available);
    assert_eq!(HymoFs::status_from_presence(false), HymoFsStatus::NotPresent);
}

#[test]
fn status_probe_is_repeatable() {
    let first = HymoFs::check_status();
    assert!(first == HymoFsStatus::Available || first == HymoFsStatus::NotPresent);
    assert_eq!(HymoFs::check_status(), first);
    assert_eq!(HymoFs::is_available(), first == HymoFsStatus::Available);
}
