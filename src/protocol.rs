//! Command codes of the control device.
//!
//! A code packs four fields from bit 0 upward: the command number (8 bits),
//! the type tag of the command family (8 bits), the payload size in bytes
//! (14 bits) and the transfer direction (2 bits).
use vstd::prelude::*;

verus! {

pub const IOC_NRBITS: u32 = 8;
pub const IOC_TYPEBITS: u32 = 8;
pub const IOC_SIZEBITS: u32 = 14;
pub const IOC_DIRBITS: u32 = 2;

pub const IOC_NRSHIFT: u32 = 0;
pub const IOC_TYPESHIFT: u32 = 8;
pub const IOC_SIZESHIFT: u32 = 16;
pub const IOC_DIRSHIFT: u32 = 30;

/// No data transfer.
pub const IOC_NONE: u32 = 0;
/// The caller writes a payload to the device.
pub const IOC_WRITE: u32 = 1;
/// The caller reads a payload from the device.
pub const IOC_READ: u32 = 2;
/// Both directions.
pub const IOC_READ_WRITE: u32 = 3;

/// Type tag of this device's command family.
pub const HYMO_IOC_MAGIC: u32 = 0xE0;

/// The packed code, as a number.
pub open spec fn ioc_spec(dir: u32, ty: u32, nr: u32, size: u32) -> int {
    dir * 0x4000_0000 + size * 0x1_0000 + ty * 0x100 + nr
}

/// Packs a command code from its four fields.
pub fn ioc(dir: u32, ty: u32, nr: u32, size: u32) -> (r: u32)
    requires
        dir < 4,
        ty < 0x100,
        nr < 0x100,
        size < 0x4000,
    ensures
        r == ioc_spec(dir, ty, nr, size),
        (r >> IOC_DIRSHIFT) == dir,
        (r >> IOC_SIZESHIFT) & 0x3fff == size,
        (r >> IOC_TYPESHIFT) & 0xff == ty,
        r & 0xff == nr,
{
    let r = (dir << IOC_DIRSHIFT) | (ty << IOC_TYPESHIFT) | (nr << IOC_NRSHIFT) | (size
        << IOC_SIZESHIFT);
    assert(r == dir * 0x4000_0000 + size * 0x1_0000 + ty * 0x100 + nr
        && (r >> 30u32) == dir && (r >> 16u32) & 0x3fff == size
        && (r >> 8u32) & 0xff == ty && r & 0xff == nr) by (bit_vector)
        requires
            dir < 4,
            ty < 0x100,
            nr < 0x100,
            size < 0x4000,
            r == (dir << 30u32) | (ty << 8u32) | (nr << 0u32) | (size << 16u32),
    ;
    r
}


pub const CMD_ADD_RULE: u32 = 1;
pub const CMD_DEL_RULE: u32 = 2;
pub const CMD_HIDE_RULE: u32 = 3;
pub const CMD_INJECT_RULE: u32 = 4;
pub const CMD_CLEAR_ALL: u32 = 5;
pub const CMD_GET_VERSION: u32 = 6;
pub const CMD_LIST_RULES: u32 = 7;

/// Size in bytes of the `int` that the version command returns.
pub const VERSION_PAYLOAD_SIZE: u32 = 4;

/// Pointer widths, in bytes, that the layouts below are defined for.
pub open spec fn valid_pointer_width(ptr: u32) -> bool {
    ptr == 4 || ptr == 8
}

/// Byte size of the rule record: two string pointers and a one-byte kind,
/// padded to the pointer alignment.
pub open spec fn rule_record_size_spec(ptr: u32) -> u32 {
    (3 * ptr) as u32
}

/// Byte size of the list-query record: a buffer pointer and its capacity.
pub open spec fn list_record_size_spec(ptr: u32) -> u32 {
    (2 * ptr) as u32
}

/// Size of the rule record on a target whose pointers are `ptr` bytes wide.
pub fn rule_record_size(ptr: u32) -> (r: u32)
    requires
        valid_pointer_width(ptr),
    ensures
        r == rule_record_size_spec(ptr),
        r == 2 * ptr + ptr,
{
    // The byte after the two pointers is padded up to the next multiple of
    // the pointer alignment.
    let unpadded = 2 * ptr + 1;
    (unpadded + ptr - 1) / ptr * ptr
}

/// Size of the list-query record on a target whose pointers are `ptr` bytes wide.
pub fn list_record_size(ptr: u32) -> (r: u32)
    requires
        valid_pointer_width(ptr),
    ensures
        r == list_record_size_spec(ptr),
{
    ptr + ptr
}

/// Code of the add-rule command.
pub fn ioc_add_rule(ptr: u32) -> (r: u32)
    requires
        valid_pointer_width(ptr),
    ensures
        r == ioc_spec(IOC_WRITE, HYMO_IOC_MAGIC, CMD_ADD_RULE, rule_record_size_spec(ptr)),
{
    ioc(IOC_WRITE, HYMO_IOC_MAGIC, CMD_ADD_RULE, rule_record_size(ptr))
}

/// Code of the delete-rule command.
pub fn ioc_del_rule(ptr: u32) -> (r: u32)
    requires
        valid_pointer_width(ptr),
    ensures
        r == ioc_spec(IOC_WRITE, HYMO_IOC_MAGIC, CMD_DEL_RULE, rule_record_size_spec(ptr)),
{
    ioc(IOC_WRITE, HYMO_IOC_MAGIC, CMD_DEL_RULE, rule_record_size(ptr))
}

/// Code of the hide-rule command.
pub fn ioc_hide_rule(ptr: u32) -> (r: u32)
    requires
        valid_pointer_width(ptr),
    ensures
        r == ioc_spec(IOC_WRITE, HYMO_IOC_MAGIC, CMD_HIDE_RULE, rule_record_size_spec(ptr)),
{
    ioc(IOC_WRITE, HYMO_IOC_MAGIC, CMD_HIDE_RULE, rule_record_size(ptr))
}

/// Code of the command that marks a directory as injectable.
pub fn ioc_inject_rule(ptr: u32) -> (r: u32)
    requires
        valid_pointer_width(ptr),
    ensures
        r == ioc_spec(IOC_WRITE, HYMO_IOC_MAGIC, CMD_INJECT_RULE, rule_record_size_spec(ptr)),
{
    ioc(IOC_WRITE, HYMO_IOC_MAGIC, CMD_INJECT_RULE, rule_record_size(ptr))
}

/// Code of the clear-all command, which carries no payload.
pub fn ioc_clear_all() -> (r: u32)
    ensures
        r == ioc_spec(IOC_NONE, HYMO_IOC_MAGIC, CMD_CLEAR_ALL, 0),
{
    ioc(IOC_NONE, HYMO_IOC_MAGIC, CMD_CLEAR_ALL, 0)
}

/// Code of the get-version command.
pub fn ioc_get_version() -> (r: u32)
    ensures
        r == ioc_spec(IOC_READ, HYMO_IOC_MAGIC, CMD_GET_VERSION, VERSION_PAYLOAD_SIZE),
{
    ioc(IOC_READ, HYMO_IOC_MAGIC, CMD_GET_VERSION, VERSION_PAYLOAD_SIZE)
}

/// Code of the list-rules command.
pub fn ioc_list_rules(ptr: u32) -> (r: u32)
    requires
        valid_pointer_width(ptr),
    ensures
        r == ioc_spec(IOC_READ_WRITE, HYMO_IOC_MAGIC, CMD_LIST_RULES, list_record_size_spec(ptr)),
{
    ioc(IOC_READ_WRITE, HYMO_IOC_MAGIC, CMD_LIST_RULES, list_record_size(ptr))
}

/// On a 64-bit target the seven codes are these constants.
pub proof fn lemma_codes_on_64_bit()
    ensures
        ioc_spec(IOC_WRITE, HYMO_IOC_MAGIC, CMD_ADD_RULE, rule_record_size_spec(8)) == 0x4018_E001,
        ioc_spec(IOC_WRITE, HYMO_IOC_MAGIC, CMD_DEL_RULE, rule_record_size_spec(8)) == 0x4018_E002,
        ioc_spec(IOC_WRITE, HYMO_IOC_MAGIC, CMD_HIDE_RULE, rule_record_size_spec(8)) == 0x4018_E003,
        ioc_spec(IOC_WRITE, HYMO_IOC_MAGIC, CMD_INJECT_RULE, rule_record_size_spec(8))
            == 0x4018_E004,
        ioc_spec(IOC_NONE, HYMO_IOC_MAGIC, CMD_CLEAR_ALL, 0) == 0x0000_E005,
        ioc_spec(IOC_READ, HYMO_IOC_MAGIC, CMD_GET_VERSION, VERSION_PAYLOAD_SIZE) == 0x8004_E006,
        ioc_spec(IOC_READ_WRITE, HYMO_IOC_MAGIC, CMD_LIST_RULES, list_record_size_spec(8))
            == 0xC010_E007,
{
}

} // verus!
