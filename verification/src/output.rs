//! The output modes and the text that each of them prints.

use crate::error::SubnetError;
use crate::format::{
    binary_digits, dotted_binary, dotted_decimal, format_dotted_binary, format_dotted_decimal,
    format_machine_binary, format_prefix, prefix_notation,
};
use crate::mask::{
    calculate_prefix, calculate_subnet_mask, lemma_mask_is_ones_then_zeros, prefix_length,
    subnet_mask,
};
use crate::octets::{calculate_mask_octets, mask_octets};
use vstd::prelude::*;
use vstd::string::*;

verus! {

/// What to print for a subnet.
#[derive(Clone, Copy, Debug, PartialEq, Eq, Structural)]
pub enum OutputType {
    /// The mask as one binary numeral.
    Binary,
    /// The mask in dotted decimal.
    DottedDecimal,
    /// The prefix length in slash notation.
    Prefix,
    /// The mask as one binary numeral, for programs to read.
    Machine,
    /// Dotted binary, dotted decimal, prefix and binary numeral, one per line.
    All,
    /// A selector that names no mode.
    Invalid,
}

impl OutputType {
    /// The mode that a selector names: `b`, `bin`, `binary`; `d`, `dotted`;
    /// `p`, `prefix`; `m`, `machine`; `a`, `all`. Any other text names none.
    pub open spec fn spec_from_flag(flag: Seq<char>) -> OutputType {
        if flag == "b"@ || flag == "bin"@ || flag == "binary"@ {
            OutputType::Binary
        } else if flag == "d"@ || flag == "dotted"@ {
            OutputType::DottedDecimal
        } else if flag == "p"@ || flag == "prefix"@ {
            OutputType::Prefix
        } else if flag == "m"@ || flag == "machine"@ {
            OutputType::Machine
        } else if flag == "a"@ || flag == "all"@ {
            OutputType::All
        } else {
            OutputType::Invalid
        }
    }

    /// The mode that a selector names, `Invalid` where it names none.
    pub fn from_flag(flag: &str) -> (output: OutputType)
        ensures
            output == Self::spec_from_flag(flag@),
    {
        let flag = String::from_str(flag);
        if same_text(&flag, "b") || same_text(&flag, "bin") || same_text(&flag, "binary") {
            OutputType::Binary
        } else if same_text(&flag, "d") || same_text(&flag, "dotted") {
            OutputType::DottedDecimal
        } else if same_text(&flag, "p") || same_text(&flag, "prefix") {
            OutputType::Prefix
        } else if same_text(&flag, "m") || same_text(&flag, "machine") {
            OutputType::Machine
        } else if same_text(&flag, "a") || same_text(&flag, "all") {
            OutputType::All
        } else {
            OutputType::Invalid
        }
    }
}

/// Each selector names the mode it is listed under: no selector is shadowed
/// by one that is tested before it.
pub proof fn lemma_selectors_name_their_modes()
    ensures
        OutputType::spec_from_flag("b"@) == OutputType::Binary,
        OutputType::spec_from_flag("bin"@) == OutputType::Binary,
        OutputType::spec_from_flag("binary"@) == OutputType::Binary,
        OutputType::spec_from_flag("d"@) == OutputType::DottedDecimal,
        OutputType::spec_from_flag("dotted"@) == OutputType::DottedDecimal,
        OutputType::spec_from_flag("p"@) == OutputType::Prefix,
        OutputType::spec_from_flag("prefix"@) == OutputType::Prefix,
        OutputType::spec_from_flag("m"@) == OutputType::Machine,
        OutputType::spec_from_flag("machine"@) == OutputType::Machine,
        OutputType::spec_from_flag("a"@) == OutputType::All,
        OutputType::spec_from_flag("all"@) == OutputType::All,
        OutputType::spec_from_flag(Seq::empty()) == OutputType::Invalid,
{
    assert(Seq::<char>::empty().len() == 0);
    reveal_strlit("b");
    reveal_strlit("bin");
    reveal_strlit("binary");
    reveal_strlit("d");
    reveal_strlit("dotted");
    reveal_strlit("p");
    reveal_strlit("prefix");
    reveal_strlit("m");
    reveal_strlit("machine");
    reveal_strlit("a");
    reveal_strlit("all");
    assert("b"@[0] == 'b' && "bin"@[0] == 'b' && "binary"@[0] == 'b');
    assert("d"@[0] == 'd' && "dotted"@[0] == 'd');
    assert("p"@[0] == 'p' && "prefix"@[0] == 'p');
    assert("m"@[0] == 'm' && "machine"@[0] == 'm');
    assert("a"@[0] == 'a' && "all"@[0] == 'a');
}

/// Whether two texts hold the same characters.
fn same_text(left: &String, right: &str) -> (same: bool)
    ensures
        same == (left@ == right@),
{
    *left == String::from_str(right)
}

/// The refusal that a request earns, if any. An unsupported or invalid
/// version is reported as such whatever the mode; with version 4, a selector
/// that names no mode is invalid input.
pub open spec fn refusal(version: u8, output: OutputType) -> Option<SubnetError> {
    match SubnetError::for_version(version) {
        Some(e) => Some(e),
        None => if output is Invalid {
            Some(SubnetError::InvalidState)
        } else {
            None
        },
    }
}

/// The four lines of the `All` mode.
pub open spec fn summary(mask: u32, prefix: nat) -> Seq<char> {
    "Dotted Binary: "@ + dotted_binary(mask_octets(mask))
        + "\nDotted Decimal: "@ + dotted_decimal(mask_octets(mask))
        + "\nPrefix: "@ + prefix_notation(prefix)
        + "\nMachine Binary: "@ + binary_digits(mask as nat)
}

/// The text that a mode prints for a subnet of `hosts` hosts.
pub open spec fn rendering(hosts: u32, output: OutputType) -> Seq<char> {
    let mask = subnet_mask(hosts) as u32;
    let prefix = prefix_length(hosts) as nat;
    match output {
        OutputType::Binary => binary_digits(mask as nat),
        OutputType::DottedDecimal => dotted_decimal(mask_octets(mask)),
        OutputType::Prefix => prefix_notation(prefix),
        OutputType::Machine => binary_digits(mask as nat),
        OutputType::All => summary(mask, prefix),
        OutputType::Invalid => Seq::empty(),
    }
}

/// The text to print for a subnet of `hosts` hosts under the given IP
/// version, in the given mode, without a final line break.
///
/// Version 6 is refused as unsupported and any version other than 4 as
/// invalid, whatever the mode; with version 4 the `Invalid` mode is refused
/// as invalid.
pub fn render(
    hosts: &u32,
    version: &u8,
    output: OutputType,
) -> (result: Result<String, SubnetError>)
    ensures
        match result {
            Ok(text) => refusal(*version, output) is None && text@ == rendering(*hosts, output),
            Err(e) => refusal(*version, output) == Some(e),
        },
{
    match output {
        OutputType::Binary | OutputType::Machine => match calculate_subnet_mask(hosts, version) {
            Ok(mask) => Ok(format_machine_binary(mask)),
            Err(e) => Err(e),
        },
        OutputType::DottedDecimal => match calculate_subnet_mask(hosts, version) {
            Ok(mask) => Ok(format_dotted_decimal(&calculate_mask_octets(mask))),
            Err(e) => Err(e),
        },
        OutputType::Prefix => match calculate_prefix(hosts, version) {
            Ok(prefix) => Ok(format_prefix(prefix)),
            Err(e) => Err(e),
        },
        OutputType::All => match calculate_subnet_mask(hosts, version) {
            Ok(mask) => {
                proof {
                    lemma_mask_is_ones_then_zeros(*hosts);
                }
                // The prefix is the run of ones that the mask starts with.
                let prefix = mask.leading_ones();
                let octets = calculate_mask_octets(mask);
                let mut text = String::from_str("Dotted Binary: ");
                text.append(format_dotted_binary(&octets).as_str());
                text.append("\nDotted Decimal: ");
                text.append(format_dotted_decimal(&octets).as_str());
                text.append("\nPrefix: ");
                text.append(format_prefix(prefix).as_str());
                text.append("\nMachine Binary: ");
                text.append(format_machine_binary(mask).as_str());
                Ok(text)
            },
            Err(e) => Err(e),
        },
        OutputType::Invalid => match SubnetError::check_version(*version) {
            Some(e) => Err(e),
            None => Err(SubnetError::InvalidState),
        },
    }
}

} // verus!
