use subnet_mask::{
    format_dotted_binary, format_dotted_decimal, format_machine_binary, format_prefix,
};

#[test]
fn dotted_decimal_has_no_leading_zeros() {
    assert_eq!(format_dotted_decimal(&[255, 255, 255, 0]), "255.255.255.0");
    assert_eq!(format_dotted_decimal(&[0, 0, 0, 0]), "0.0.0.0");
    assert_eq!(format_dotted_decimal(&[1, 20, 100, 9]), "1.20.100.9");
    assert_eq!(format_dotted_decimal(&[10, 99, 101, 200]), "10.99.101.200");
}

#[test]
fn dotted_binary_pads_each_octet_to_eight_digits() {
    assert_eq!(
        format_dotted_binary(&[255, 255, 255, 0]),
        "11111111.11111111.11111111.00000000"
    );
    assert_eq!(format_dotted_binary(&[0, 1, 2, 128]), "00000000.00000001.00000010.10000000");
    assert_eq!(format_dotted_binary(&[255, 254, 0, 0]), "11111111.11111110.00000000.00000000");
    assert_eq!(format_dotted_binary(&[0xA5, 0x5A, 0x0F, 0xF0]).len(), 35);
}

#[test]
fn dotted_forms_agree_with_the_standard_formatter() {
    let mut value: u8 = 0;
    loop {
        let other: u8 = value.wrapping_mul(37).wrapping_add(11);
        let octets: [u8; 4] = [value, other, !value, value ^ other];
        assert_eq!(
            format_dotted_decimal(&octets),
            format!("{}.{}.{}.{}", octets[0], octets[1], octets[2], octets[3])
        );
        assert_eq!(
            format_dotted_binary(&octets),
            format!("{:08b}.{:08b}.{:08b}.{:08b}", octets[0], octets[1], octets[2], octets[3])
        );
        if value == u8::MAX {
            break;
        }
        value += 1;
    }
}

#[test]
fn machine_binary_has_no_padding() {
    assert_eq!(format_machine_binary(0xFFFF_FF00), "11111111111111111111111100000000");
    assert_eq!(format_machine_binary(0xFFFF_FFFF), "11111111111111111111111111111111");
    assert_eq!(format_machine_binary(0x8000_0000), "10000000000000000000000000000000");
    assert_eq!(format_machine_binary(5), "101");
    assert_eq!(format_machine_binary(1), "1");
    assert_eq!(format_machine_binary(0), "0");
}

#[test]
fn machine_binary_agrees_with_the_standard_formatter() {
    let mut shift: u32 = 0;
    while shift < 32 {
        let word: u32 = 0xDEAD_BEEF >> shift;
        assert_eq!(format_machine_binary(word), format!("{:b}", word));
        let mask: u32 = u32::MAX << shift;
        assert_eq!(format_machine_binary(mask), format!("{:b}", mask));
        shift += 1;
    }
}

#[test]
fn prefix_is_written_after_a_slash() {
    assert_eq!(format_prefix(24), "/24");
    assert_eq!(format_prefix(0), "/0");
    assert_eq!(format_prefix(32), "/32");
    assert_eq!(format_prefix(9), "/9");
    assert_eq!(format_prefix(10), "/10");
    let mut prefix: u32 = 0;
    while prefix <= 32 {
        assert_eq!(format_prefix(prefix), format!("/{}", prefix));
        prefix += 1;
    }
    assert_eq!(format_prefix(u32::MAX), "/4294967295");
}
