//! Requests to the control device and the meaning of its answers.
//!
//! Every logical operation is one device call. What this module decides is
//! which request a call carries, whether its arguments are acceptable at all,
//! and what the device's return value means to the caller.
use vstd::prelude::*;
use crate::reconcile::{Command, CommandModel};
use crate::protocol::{
    ioc_add_rule, ioc_del_rule, ioc_hide_rule, ioc_inject_rule, ioc_spec, rule_record_size_spec,
    valid_pointer_width, CMD_ADD_RULE, CMD_DEL_RULE, CMD_HIDE_RULE, CMD_INJECT_RULE,
    HYMO_IOC_MAGIC, IOC_WRITE,
};

verus! {

/// Path of the control device.
pub const DEV_PATH: &'static str = "/dev/hymo_ctl";

/// Capacity of the buffer handed to the list-rules command.
pub const LIST_BUFFER_CAPACITY: usize = 128 * 1024;

/// The no-such-file error number.
pub const ENOENT: i32 = 2;
/// The operation-not-permitted error number.
pub const EPERM: i32 = 1;
/// The permission-denied error number.
pub const EACCES: i32 = 13;

/// The operations that the control device offers.
#[derive(Clone, Copy, Debug, PartialEq, Eq, Structural)]
pub enum Operation {
    AddRule,
    DeleteRule,
    HidePath,
    InjectDir,
    Clear,
    GetVersion,
    ListRules,
}

/// Why a control operation failed.
#[derive(Debug)]
pub enum ControlError {
    /// The control device does not exist.
    DeviceUnavailable,
    /// The control device exists but may not be opened.
    PermissionDenied { errno: i32 },
    /// Opening the control device failed otherwise.
    OsError { errno: i32 },
    /// A path holds an embedded NUL and cannot be handed to the device.
    InvalidArgument,
    /// The device refused the request.
    ControlOpFailed { operation: Operation, path: String, errno: i32 },
    /// The rule listing did not fit in the buffer.
    BufferTooSmall,
}

/// The four commands that carry a rule record.
#[derive(Clone, Copy, Debug, PartialEq, Eq, Structural)]
pub enum RuleCommand {
    Add,
    Delete,
    Hide,
    InjectDir,
}

/// Command number of a rule command.
pub open spec fn rule_command_nr(c: RuleCommand) -> u32 {
    match c {
        RuleCommand::Add => CMD_ADD_RULE,
        RuleCommand::Delete => CMD_DEL_RULE,
        RuleCommand::Hide => CMD_HIDE_RULE,
        RuleCommand::InjectDir => CMD_INJECT_RULE,
    }
}

/// The operation that a rule command performs.
pub open spec fn rule_command_operation(c: RuleCommand) -> Operation {
    match c {
        RuleCommand::Add => Operation::AddRule,
        RuleCommand::Delete => Operation::DeleteRule,
        RuleCommand::Hide => Operation::HidePath,
        RuleCommand::InjectDir => Operation::InjectDir,
    }
}

/// A rule request, ready to be laid out as the device's rule record.
///
/// `target` is absent for every command but add-rule, where the record's
/// target pointer is null.
pub struct RuleRequest {
    pub operation: Operation,
    pub code: u32,
    pub source: String,
    pub target: Option<String>,
    pub kind: u8,
}

/// A path the device can take: it holds no NUL character.
pub open spec fn nul_free(s: Seq<char>) -> bool {
    !s.contains('\0')
}

/// Whether `s` holds a NUL character.
pub fn contains_nul(s: &str) -> (r: bool)
    ensures
        r == !nul_free(s@),
{
    let n = s.unicode_len();
    let mut i: usize = 0;
    while i < n
        invariant
            n == s@.len(),
            i <= n,
            forall|j: int| 0 <= j < i ==> s@[j] != '\0',
        decreases n - i,
    {
        if s.get_char(i) == '\0' {
            return true;
        }
        i += 1;
    }
    assert(!s@.contains('\0')) by {
        if s@.contains('\0') {
            let j = choose|j: int| 0 <= j < s@.len() && s@[j] == '\0';
            assert(s@[j] != '\0');
        }
    }
    false
}

/// Code of a rule command.
pub fn rule_command_code(c: RuleCommand, ptr: u32) -> (r: u32)
    requires
        valid_pointer_width(ptr),
    ensures
        r == ioc_spec(IOC_WRITE, HYMO_IOC_MAGIC, rule_command_nr(c), rule_record_size_spec(ptr)),
{
    match c {
        RuleCommand::Add => ioc_add_rule(ptr),
        RuleCommand::Delete => ioc_del_rule(ptr),
        RuleCommand::Hide => ioc_hide_rule(ptr),
        RuleCommand::InjectDir => ioc_inject_rule(ptr),
    }
}

/// Builds the request of a rule command.
///
/// Fails with `InvalidArgument` exactly when the source, or the target where
/// there is one, holds a NUL character; no device call is needed to tell.
pub fn rule_request(c: RuleCommand, source: &str, target: Option<&str>, kind: u8, ptr: u32) -> (r:
    Result<RuleRequest, ControlError>)
    requires
        valid_pointer_width(ptr),
    ensures
        r is Err <==> !nul_free(source@) || (target is Some && !nul_free(target->Some_0@)),
        r is Err ==> r->Err_0 is InvalidArgument,
        r is Ok ==> {
            let q = r->Ok_0;
            &&& q.operation == rule_command_operation(c)
            &&& q.code == ioc_spec(
                IOC_WRITE,
                HYMO_IOC_MAGIC,
                rule_command_nr(c),
                rule_record_size_spec(ptr),
            )
            &&& q.source@ == source@
            &&& q.target is Some <==> target is Some
            &&& target is Some ==> q.target->Some_0@ == target->Some_0@
            &&& q.kind == kind
        },
{
    if contains_nul(source) {
        return Err(ControlError::InvalidArgument);
    }
    let t = match target {
        Some(t) => {
            if contains_nul(t) {
                return Err(ControlError::InvalidArgument);
            }
            Some(t.to_owned())
        },
        None => None,
    };
    let operation = match c {
        RuleCommand::Add => Operation::AddRule,
        RuleCommand::Delete => Operation::DeleteRule,
        RuleCommand::Hide => Operation::HidePath,
        RuleCommand::InjectDir => Operation::InjectDir,
    };
    Ok(
        RuleRequest {
            operation,
            code: rule_command_code(c, ptr),
            source: source.to_owned(),
            target: t,
            kind,
        },
    )
}

/// Maps a failure to open the control device, by its error number.
pub fn open_error(errno: i32) -> (r: ControlError)
    ensures
        errno == ENOENT ==> r is DeviceUnavailable,
        errno == EPERM || errno == EACCES ==> r == (ControlError::PermissionDenied { errno }),
        errno != ENOENT && errno != EPERM && errno != EACCES ==> r == (ControlError::OsError {
            errno,
        }),
{
    if errno == ENOENT {
        ControlError::DeviceUnavailable
    } else if errno == EPERM || errno == EACCES {
        ControlError::PermissionDenied { errno }
    } else {
        ControlError::OsError { errno }
    }
}

/// The outcome of a device call that returned `ret`, with `errno` the error
/// number the system reported for it.
///
/// A negative return is a failure that names the operation and the path.
pub fn call_outcome(op: Operation, path: &str, ret: i32, errno: i32) -> (r: Result<(), ControlError>)
    ensures
        r is Ok <==> ret >= 0,
        r is Err ==> (match r->Err_0 {
            ControlError::ControlOpFailed { operation, path: p, errno: e } => operation == op
                && p@ == path@ && e == errno,
            _ => false,
        }),
{
    if ret < 0 {
        Err(ControlError::ControlOpFailed { operation: op, path: path.to_owned(), errno })
    } else {
        Ok(())
    }
}

/// The version that the get-version call reports: its return value, unless
/// that is negative.
pub fn version_from_return(ret: i32) -> (r: Option<i32>)
    ensures
        ret < 0 ==> r is None,
        ret >= 0 ==> r == Some(ret),
{
    if ret < 0 {
        None
    } else {
        Some(ret)
    }
}

/// The text of a NUL-terminated listing, with invalid sequences replaced.
pub uninterp spec fn utf8_lossy(b: Seq<u8>) -> Seq<char>;

/// Relies on `String::from_utf8_lossy`: decodes bytes as UTF-8, replacing
/// each invalid sequence with U+FFFD. The result depends on the bytes alone.
#[verifier::external_body]
fn decode_lossy(b: &[u8]) -> (r: String)
    ensures
        r@ == utf8_lossy(b@),
        b@.len() == 0 ==> r@.len() == 0,
{
    String::from_utf8_lossy(b).into_owned()
}

/// Reads the listing that the list-rules command left in `buf`.
///
/// The text ends at the first NUL byte. Without one the listing was cut
/// short by the buffer's end, and the call fails with `BufferTooSmall`.
pub fn listing_text(buf: &[u8]) -> (r: Result<String, ControlError>)
    ensures
        r is Err <==> !buf@.contains(0u8),
        r is Err ==> r->Err_0 is BufferTooSmall,
        r is Ok ==> exists|n: int|
            0 <= n < buf@.len() && buf@[n] == 0 && (forall|j: int| 0 <= j < n ==> buf@[j] != 0)
                && r->Ok_0@ == utf8_lossy(buf@.subrange(0, n)),
{
    let mut prefix: Vec<u8> = Vec::new();
    let mut i: usize = 0;
    while i < buf.len()
        invariant
            i <= buf@.len(),
            prefix@ == buf@.subrange(0, i as int),
            forall|j: int| 0 <= j < i ==> buf@[j] != 0,
        decreases buf@.len() - i,
    {
        if buf[i] == 0 {
            let text = decode_lossy(prefix.as_slice());
            assert(buf@.contains(0u8));
            return Ok(text);
        }
        prefix.push(buf[i]);
        i += 1;
        assert(prefix@ =~= buf@.subrange(0, i as int));
    }
    assert(!buf@.contains(0u8)) by {
        if buf@.contains(0u8) {
            let j = choose|j: int| 0 <= j < buf@.len() && buf@[j] == 0u8;
            assert(buf@[j] != 0);
        }
    }
    Err(ControlError::BufferTooSmall)
}


/// The rule command, source, target and kind that carry out a command.
pub open spec fn command_parts(c: CommandModel) -> (RuleCommand, Seq<char>, Option<Seq<char>>, u8) {
    match c {
        CommandModel::MarkDir { dir } => (RuleCommand::InjectDir, dir, None, 0u8),
        CommandModel::AddRule { dest, src } => (RuleCommand::Add, dest, Some(src), 0u8),
        CommandModel::Hide { path } => (RuleCommand::Hide, path, None, 0u8),
        CommandModel::Delete { path } => (RuleCommand::Delete, path, None, 0u8),
    }
}

/// Builds the request that carries out a command of a reconciliation.
///
/// Redirects are added with kind 0. Fails with `InvalidArgument` exactly
/// when a path of the command holds a NUL character.
pub fn command_request(cmd: &Command, ptr: u32) -> (r: Result<RuleRequest, ControlError>)
    requires
        valid_pointer_width(ptr),
    ensures
        ({
            let (c, source, target, kind) = command_parts(cmd@);
            &&& r is Err <==> !nul_free(source) || (target is Some && !nul_free(target->Some_0))
            &&& r is Err ==> r->Err_0 is InvalidArgument
            &&& r is Ok ==> {
                let q = r->Ok_0;
                &&& q.operation == rule_command_operation(c)
                &&& q.code == ioc_spec(
                    IOC_WRITE,
                    HYMO_IOC_MAGIC,
                    rule_command_nr(c),
                    rule_record_size_spec(ptr),
                )
                &&& q.source@ == source
                &&& q.target is Some <==> target is Some
                &&& target is Some ==> q.target->Some_0@ == target->Some_0
                &&& q.kind == kind
            }
        }),
{
    match cmd {
        Command::MarkDir { dir } => rule_request(RuleCommand::InjectDir, dir.as_str(), None, 0, ptr),
        Command::AddRule { dest, src } => rule_request(
            RuleCommand::Add,
            dest.as_str(),
            Some(src.as_str()),
            0,
            ptr,
        ),
        Command::Hide { path } => rule_request(RuleCommand::Hide, path.as_str(), None, 0, ptr),
        Command::Delete { path } => rule_request(RuleCommand::Delete, path.as_str(), None, 0, ptr),
    }
}

} // verus!
