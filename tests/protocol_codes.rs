use hymofs::protocol::{
    ioc, ioc_add_rule, ioc_clear_all, ioc_del_rule, ioc_get_version, ioc_hide_rule,
    ioc_inject_rule, ioc_list_rules, list_record_size, rule_record_size, HYMO_IOC_MAGIC,
    IOC_READ_WRITE,
};

#[test]
fn command_codes_on_64_bit() {
    assert_eq!(ioc_add_rule(8), 0x4018_E001);
    assert_eq!(ioc_del_rule(8), 0x4018_E002);
    assert_eq!(ioc_hide_rule(8), 0x4018_E003);
    assert_eq!(ioc_inject_rule(8), 0x4018_E004);
    assert_eq!(ioc_clear_all(), 0x0000_E005);
    assert_eq!(ioc_get_version(), 0x8004_E006);
    assert_eq!(ioc_list_rules(8), 0xC010_E007);
}

#[test]
fn command_codes_on_32_bit() {
    assert_eq!(ioc_add_rule(4), 0x400C_E001);
    assert_eq!(ioc_inject_rule(4), 0x400C_E004);
    assert_eq!(ioc_list_rules(4), 0xC008_E007);
}

#[test]
fn record_sizes_are_padded() {
    assert_eq!(rule_record_size(8), 24);
    assert_eq!(rule_record_size(4), 12);
    assert_eq!(list_record_size(8), 16);
    assert_eq!(list_record_size(4), 8);
}

#[test]
fn fields_do_not_overlap() {
    let code = ioc(IOC_READ_WRITE, HYMO_IOC_MAGIC, 0xff, 0x3fff);
    assert_eq!(code, 0xFFFF_E0FF);
    assert_eq!(code >> 30, IOC_READ_WRITE);
    assert_eq!((code >> 16) & 0x3fff, 0x3fff);
    assert_eq!((code >> 8) & 0xff, HYMO_IOC_MAGIC);
    assert_eq!(code & 0xff, 0xff);
    assert_eq!(ioc(0, 0, 0, 0), 0);
}
