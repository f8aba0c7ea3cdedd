use subnet_mask::{render, OutputType, SubnetError};

const MODES: [OutputType; 6] = [
    OutputType::Binary,
    OutputType::DottedDecimal,
    OutputType::Prefix,
    OutputType::Machine,
    OutputType::All,
    OutputType::Invalid,
];

#[test]
fn selectors_name_their_modes() {
    assert_eq!(OutputType::from_flag("b"), OutputType::Binary);
    assert_eq!(OutputType::from_flag("bin"), OutputType::Binary);
    assert_eq!(OutputType::from_flag("binary"), OutputType::Binary);
    assert_eq!(OutputType::from_flag("d"), OutputType::DottedDecimal);
    assert_eq!(OutputType::from_flag("dotted"), OutputType::DottedDecimal);
    assert_eq!(OutputType::from_flag("p"), OutputType::Prefix);
    assert_eq!(OutputType::from_flag("prefix"), OutputType::Prefix);
    assert_eq!(OutputType::from_flag("m"), OutputType::Machine);
    assert_eq!(OutputType::from_flag("machine"), OutputType::Machine);
    assert_eq!(OutputType::from_flag("a"), OutputType::All);
    assert_eq!(OutputType::from_flag("all"), OutputType::All);
}

#[test]
fn other_selectors_name_no_mode() {
    assert_eq!(OutputType::from_flag(""), OutputType::Invalid);
    assert_eq!(OutputType::from_flag("B"), OutputType::Invalid);
    assert_eq!(OutputType::from_flag("bi"), OutputType::Invalid);
    assert_eq!(OutputType::from_flag("binaryy"), OutputType::Invalid);
    assert_eq!(OutputType::from_flag(" all"), OutputType::Invalid);
    assert_eq!(OutputType::from_flag("json"), OutputType::Invalid);
}

#[test]
fn single_modes_print_one_line() {
    assert_eq!(
        render(&254, &4, OutputType::Binary),
        Ok("11111111111111111111111100000000".to_string())
    );
    assert_eq!(
        render(&254, &4, OutputType::Machine),
        Ok("11111111111111111111111100000000".to_string())
    );
    assert_eq!(render(&254, &4, OutputType::DottedDecimal), Ok("255.255.255.0".to_string()));
    assert_eq!(render(&254, &4, OutputType::Prefix), Ok("/24".to_string()));
    assert_eq!(render(&65536, &4, OutputType::DottedDecimal), Ok("255.254.0.0".to_string()));
    assert_eq!(render(&0, &4, OutputType::Prefix), Ok("/32".to_string()));
}

#[test]
fn all_prints_four_labelled_lines() {
    assert_eq!(
        render(&254, &4, OutputType::All),
        Ok("Dotted Binary: 11111111.11111111.11111111.00000000\n\
            Dotted Decimal: 255.255.255.0\n\
            Prefix: /24\n\
            Machine Binary: 11111111111111111111111100000000"
            .to_string())
    );
    assert_eq!(
        render(&1, &4, OutputType::All),
        Ok("Dotted Binary: 11111111.11111111.11111111.11111110\n\
            Dotted Decimal: 255.255.255.254\n\
            Prefix: /31\n\
            Machine Binary: 11111111111111111111111111111110"
            .to_string())
    );
}

#[test]
fn widest_subnet_prints_an_empty_mask() {
    assert_eq!(
        render(&0x8000_0000, &4, OutputType::All),
        Ok("Dotted Binary: 00000000.00000000.00000000.00000000\n\
            Dotted Decimal: 0.0.0.0\n\
            Prefix: /0\n\
            Machine Binary: 0"
            .to_string())
    );
    assert_eq!(render(&u32::MAX, &4, OutputType::Machine), Ok("0".to_string()));
    assert_eq!(render(&u32::MAX, &4, OutputType::Prefix), Ok("/0".to_string()));
}

#[test]
fn version_six_is_unsupported_in_every_mode() {
    for output in MODES {
        for hosts in [0u32, 1, 254, 65536, u32::MAX] {
            let refused = render(&hosts, &6, output);
            assert_eq!(refused, Err(SubnetError::UnsupportedVersion));
            let error: SubnetError = refused.unwrap_err();
            assert_eq!(error.exit_code(), 2);
            assert!(error.message().contains("not supported"));
        }
    }
}

#[test]
fn other_versions_are_invalid_in_every_mode() {
    for output in MODES {
        for version in [0u8, 1, 3, 5, 7, 44, 255] {
            let refused = render(&254, &version, output);
            assert_eq!(refused, Err(SubnetError::InvalidState));
            assert_eq!(refused.unwrap_err().exit_code(), 1);
        }
    }
}

#[test]
fn invalid_mode_is_refused() {
    assert_eq!(render(&254, &4, OutputType::Invalid), Err(SubnetError::InvalidState));
    assert_eq!(render(&0, &4, OutputType::from_flag("xml")), Err(SubnetError::InvalidState));
}
