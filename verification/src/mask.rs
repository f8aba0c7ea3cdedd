//! The subnet mask and the prefix length that follow from a host count.

use crate::error::SubnetError;
use crate::host_bits::{
    calculate_host_bits, host_bits, lemma_bit_length_unique, lemma_host_bits_counts_leading_zeros,
};
use vstd::arithmetic::power2::*;
use vstd::prelude::*;
use vstd::std_specs::bits::*;

verus! {

/// The subnet mask for `hosts` hosts: all 32 bits set, less the `2^b - 1`
/// that fills the `b` host bits. The arithmetic is unbounded, so with all 32
/// bits given to hosts the mask is zero.
pub open spec fn subnet_mask(hosts: u32) -> int {
    0xFFFF_FFFF - (pow2(host_bits(hosts)) - 1)
}

/// The prefix length for `hosts` hosts: the address bits left to the network.
pub open spec fn prefix_length(hosts: u32) -> int {
    32 - host_bits(hosts)
}

/// Whether bit `index` of `word` is set, counting from the least significant.
pub open spec fn bit_is_set(word: u32, index: u32) -> bool {
    (word >> index) & 1 == 1
}

/// The mask as the machine computes it from a host-bit width below 32.
proof fn lemma_mask_from_shift(bits: u32)
    requires
        bits < 32,
    ensures
        1u32 << bits == pow2(bits as nat),
        0 < pow2(bits as nat) <= 0x8000_0000,
{
    lemma2_to64();
    vstd::bits::lemma_u32_pow2_no_overflow(bits as nat);
    vstd::bits::lemma_u32_shl_is_mul(1, bits);
    if bits < 31 {
        lemma_pow2_strictly_increases(bits as nat, 31);
    }
}

/// Prefix length and host bits share the 32 address bits between them.
pub proof fn lemma_prefix_and_host_bits_fill_address(hosts: u32)
    ensures
        prefix_length(hosts) + host_bits(hosts) == 32,
        0 <= prefix_length(hosts) <= 32,
{
    lemma_host_bits_counts_leading_zeros(hosts);
}

/// The mask is a 32-bit value whose bits from `host_bits` upwards are set
/// and whose bits below are clear. So it starts with exactly `prefix_length`
/// one bits, and only zero bits follow them.
pub proof fn lemma_mask_is_ones_then_zeros(hosts: u32)
    ensures
        0 <= subnet_mask(hosts) <= u32::MAX,
        forall|index: u32|
            index < 32 ==> (#[trigger] bit_is_set(subnet_mask(hosts) as u32, index)
                <==> index >= host_bits(hosts)),
        u32_leading_ones(subnet_mask(hosts) as u32) == prefix_length(hosts),
        u32_trailing_zeros(subnet_mask(hosts) as u32) == host_bits(hosts),
{
    lemma_host_bits_counts_leading_zeros(hosts);
    lemma2_to64();
    let bits: u32 = host_bits(hosts) as u32;
    let mask: u32 = subnet_mask(hosts) as u32;
    if bits < 32 {
        lemma_mask_from_shift(bits);
    } else {
        assert(mask == 0);
    }
    assert forall|index: u32| index < 32 implies (#[trigger] bit_is_set(mask, index)
        <==> index >= bits) by {
        assert(((mask >> index) & 1 == 1) <==> index >= bits) by (bit_vector)
            requires
                index < 32,
                bits <= 32,
                bits < 32 ==> mask == 0xFFFF_FFFFu32 - ((1u32 << bits) - 1),
                bits == 32 ==> mask == 0,
        ;
    }
    axiom_u32_leading_ones(mask);
    let ones: u32 = u32_leading_ones(mask);
    if ones < 32 {
        let first_zero: u32 = (31 - ones) as u32;
        assert(!bit_is_set(mask, first_zero));
    } else {
        assert(bits == 0) by (bit_vector)
            requires
                mask == 0xFFFF_FFFFu32,
                bits <= 32,
                bits < 32 ==> mask == 0xFFFF_FFFFu32 - ((1u32 << bits) - 1),
                bits == 32 ==> mask == 0,
        ;
    }
    if ones > 0 {
        let last_one: u32 = (32 - ones) as u32;
        assert(bit_is_set(mask, last_one));
    }
    axiom_u32_trailing_zeros(mask);
    let zeros: u32 = u32_trailing_zeros(mask);
    if zeros < 32 {
        assert(bit_is_set(mask, zeros));
    } else {
        assert(bits == 32) by (bit_vector)
            requires
                mask == 0,
                bits <= 32,
                bits < 32 ==> mask == 0xFFFF_FFFFu32 - ((1u32 << bits) - 1),
        ;
    }
    if zeros > 0 {
        let last_zero: u32 = (zeros - 1) as u32;
        assert(!bit_is_set(mask, last_zero));
    }
}

/// From `2^31` hosts upwards every address bit is a host bit: the prefix is
/// empty and the mask is zero, not the all-ones word that a 32-bit shift by
/// 32 would leave.
pub proof fn lemma_widest_subnet(hosts: u32)
    requires
        hosts >= 0x8000_0000,
    ensures
        host_bits(hosts) == 32,
        prefix_length(hosts) == 0,
        subnet_mask(hosts) == 0,
{
    lemma2_to64();
    lemma_bit_length_unique(hosts as nat, 32);
}

/// The subnet mask for `hosts` hosts under the given IP version.
///
/// Version 4 yields `subnet_mask(hosts)`; version 6 is refused as
/// unsupported and any other version as invalid.
pub fn calculate_subnet_mask(hosts: &u32, version: &u8) -> (result: Result<u32, SubnetError>)
    ensures
        match result {
            Ok(mask) => SubnetError::for_version(*version) is None && mask == subnet_mask(*hosts),
            Err(e) => SubnetError::for_version(*version) == Some(e),
        },
{
    match calculate_host_bits(hosts, version) {
        Ok(bits) => {
            proof {
                lemma2_to64();
                if bits < 32 {
                    lemma_mask_from_shift(bits);
                }
            }
            // A shift by the full width is not defined: with 32 host bits the
            // low run of ones is the whole word.
            let host_part: u32 = if bits >= 32 {
                u32::MAX
            } else {
                (1u32 << bits) - 1
            };
            Ok(u32::MAX - host_part)
        },
        Err(e) => Err(e),
    }
}

/// The prefix length for `hosts` hosts under the given IP version.
///
/// Version 4 yields `prefix_length(hosts)`, a value from 0 to 32; version 6
/// is refused as unsupported and any other version as invalid.
pub fn calculate_prefix(hosts: &u32, version: &u8) -> (result: Result<u32, SubnetError>)
    ensures
        match result {
            Ok(prefix) => SubnetError::for_version(*version) is None
                && prefix == prefix_length(*hosts) && prefix <= 32,
            Err(e) => SubnetError::for_version(*version) == Some(e),
        },
{
    match calculate_host_bits(hosts, version) {
        Ok(bits) => {
            proof {
                lemma_host_bits_counts_leading_zeros(*hosts);
            }
            Ok(32u32 - bits)
        },
        Err(e) => Err(e),
    }
}

} // verus!
