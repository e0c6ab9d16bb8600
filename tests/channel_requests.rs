use hymofs::channel::{
    call_outcome, command_request, contains_nul, listing_text, open_error, rule_request,
    version_from_return, ControlError, Operation, RuleCommand, LIST_BUFFER_CAPACITY,
};
use hymofs::reconcile::Command;

#[test]
fn add_rule_request_carries_both_paths() {
    let q = rule_request(RuleCommand::Add, "/dst/a", Some("/mod/a"), 0, 8).unwrap();
    assert_eq!(q.operation, Operation::AddRule);
    assert_eq!(q.code, 0x4018_E001);
    assert_eq!(q.source, "/dst/a");
    assert_eq!(q.target.as_deref(), Some("/mod/a"));
    assert_eq!(q.kind, 0);
}

#[test]
fn nul_in_source_is_rejected() {
    let r = rule_request(RuleCommand::Add, "/dst/\0a", Some("/mod/a"), 0, 8);
    assert!(matches!(r, Err(ControlError::InvalidArgument)));
}

#[test]
fn nul_in_target_is_rejected() {
    let r = rule_request(RuleCommand::Add, "/dst/a", Some("/mod\0/a"), 0, 8);
    assert!(matches!(r, Err(ControlError::InvalidArgument)));
}

#[test]
fn delete_request_has_no_target() {
    let q = rule_request(RuleCommand::Delete, "/dst/a", None, 0, 8).unwrap();
    assert_eq!(q.operation, Operation::DeleteRule);
    assert_eq!(q.code, 0x4018_E002);
    assert!(q.target.is_none());
}

#[test]
fn nul_detection() {
    assert!(contains_nul("a\0"));
    assert!(contains_nul("\0"));
    assert!(!contains_nul(""));
    assert!(!contains_nul("/dev/hymo_ctl"));
}

#[test]
fn commands_map_to_requests() {
    let mark = command_request(&Command::MarkDir { dir: "/dst/a".to_string() }, 8).unwrap();
    assert_eq!(mark.operation, Operation::InjectDir);
    assert_eq!(mark.code, 0x4018_E004);
    assert_eq!(mark.source, "/dst/a");
    let add = command_request(
        &Command::AddRule { dest: "/dst/f".to_string(), src: "/m/f".to_string() },
        8,
    )
    .unwrap();
    assert_eq!(add.operation, Operation::AddRule);
    assert_eq!(add.target.as_deref(), Some("/m/f"));
    let hide = command_request(&Command::Hide { path: "/dst/h".to_string() }, 8).unwrap();
    assert_eq!(hide.code, 0x4018_E003);
    let del = command_request(&Command::Delete { path: "/dst/x".to_string() }, 8).unwrap();
    assert_eq!(del.operation, Operation::DeleteRule);
    let bad = command_request(&Command::Hide { path: "a\0b".to_string() }, 8);
    assert!(matches!(bad, Err(ControlError::InvalidArgument)));
}

#[test]
fn negative_return_is_a_failure() {
    assert!(call_outcome(Operation::Clear, "", 0, 0).is_ok());
    assert!(call_outcome(Operation::Clear, "", 3, 0).is_ok());
    match call_outcome(Operation::HidePath, "/dst/h", -1, 22) {
        Err(ControlError::ControlOpFailed { operation, path, errno }) => {
            assert_eq!(operation, Operation::HidePath);
            assert_eq!(path, "/dst/h");
            assert_eq!(errno, 22);
        }
        other => panic!("unexpected {:?}", other),
    }
}

#[test]
fn version_is_the_return_value() {
    assert_eq!(version_from_return(3), Some(3));
    assert_eq!(version_from_return(0), Some(0));
    assert_eq!(version_from_return(-1), None);
}

#[test]
fn open_errors_by_number() {
    assert!(matches!(open_error(2), ControlError::DeviceUnavailable));
    assert!(matches!(open_error(13), ControlError::PermissionDenied { errno: 13 }));
    assert!(matches!(open_error(1), ControlError::PermissionDenied { errno: 1 }));
    assert!(matches!(open_error(5), ControlError::OsError { errno: 5 }));
}

#[test]
fn listing_ends_at_first_nul() {
    let mut buf = vec![0u8; 16];
    buf[..5].copy_from_slice(b"a->b\n");
    buf[6] = b'x';
    assert_eq!(listing_text(&buf).unwrap(), "a->b\n");
    assert_eq!(listing_text(&[0u8]).unwrap(), "");
}

#[test]
fn listing_replaces_invalid_bytes() {
    let buf = [b'o', 0xff, b'k', 0];
    assert_eq!(listing_text(&buf).unwrap(), "o\u{FFFD}k");
}

#[test]
fn listing_without_terminator_overflowed() {
    assert!(matches!(listing_text(b"abc"), Err(ControlError::BufferTooSmall)));
    assert!(matches!(listing_text(&[]), Err(ControlError::BufferTooSmall)));
    assert_eq!(LIST_BUFFER_CAPACITY, 131072);
}
