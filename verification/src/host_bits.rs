//! How many low-order address bits a host count occupies.

use crate::error::SubnetError;
use vstd::arithmetic::power2::*;
use vstd::prelude::*;
use vstd::std_specs::bits::*;

verus! {

/// The number of binary digits of `n` written without leading zeros.
/// Zero has no digits.
pub open spec fn bit_length(n: nat) -> nat
    decreases n,
{
    if n == 0 {
        0
    } else {
        1 + bit_length(n / 2)
    }
}

/// The host bits of a subnet that must hold `hosts` hosts: the bit length of
/// the count, so the position of its highest set bit plus one.
///
/// This is not the least `b` with `2^b >= hosts`: a power of two takes one
/// bit more than that, so 256 hosts take 9 bits.
pub open spec fn host_bits(hosts: u32) -> nat {
    bit_length(hosts as nat)
}

/// A number lies below two to its bit length, and a positive number reaches
/// two to its bit length less one.
pub proof fn lemma_bit_length_brackets(n: nat)
    ensures
        n < pow2(bit_length(n)),
        n > 0 ==> bit_length(n) > 0 && pow2((bit_length(n) - 1) as nat) <= n,
    decreases n,
{
    if n == 0 {
        lemma_pow2_pos(0);
    } else {
        let half: nat = n / 2;
        lemma_bit_length_brackets(half);
        lemma_pow2_unfold(bit_length(n));
        if half > 0 {
            lemma_pow2_unfold(bit_length(half));
        } else {
            lemma2_to64();
        }
    }
}

/// The brackets of `lemma_bit_length_brackets` fit one width only: a width
/// `width` with `2^(width - 1) <= n < 2^width`, or zero for `n == 0`, is the
/// bit length of `n`.
pub proof fn lemma_bit_length_unique(n: nat, width: nat)
    requires
        n < pow2(width),
        width > 0 ==> pow2((width - 1) as nat) <= n,
        width == 0 ==> n == 0,
    ensures
        bit_length(n) == width,
{
    let found: nat = bit_length(n);
    lemma_bit_length_brackets(n);
    if found < width {
        if found < width - 1 {
            lemma_pow2_strictly_increases(found, (width - 1) as nat);
        }
    } else if found > width {
        if width < found - 1 {
            lemma_pow2_strictly_increases(width, (found - 1) as nat);
        }
    }
}

/// The bit length of a 32-bit count is 32 less the number of its leading
/// zero bits. In particular it is at most 32, and zero for a count of zero.
pub proof fn lemma_host_bits_counts_leading_zeros(hosts: u32)
    ensures
        host_bits(hosts) == 32 - u32_leading_zeros(hosts),
        host_bits(hosts) <= 32,
        host_bits(hosts) == 0 <==> hosts == 0,
{
    axiom_u32_leading_zeros(hosts);
    let zeros: u32 = u32_leading_zeros(hosts);
    let width: u32 = (32 - zeros) as u32;
    lemma2_to64();
    if width < 32 {
        vstd::bits::lemma_u32_shr_is_div(hosts, width);
        lemma_pow2_pos(width as nat);
        assert(hosts < pow2(width as nat)) by (nonlinear_arith)
            requires
                hosts as nat / pow2(width as nat) == 0,
                pow2(width as nat) > 0,
        ;
    }
    if width > 0 {
        let top: u32 = (width - 1) as u32;
        assert(hosts >> top != 0) by (bit_vector)
            requires
                (hosts >> top) & 1 != 0,
        ;
        vstd::bits::lemma_u32_shr_is_div(hosts, top);
        lemma_pow2_pos(top as nat);
        assert(pow2(top as nat) <= hosts) by (nonlinear_arith)
            requires
                hosts as nat / pow2(top as nat) != 0,
                pow2(top as nat) > 0,
        ;
    }
    lemma_bit_length_unique(hosts as nat, width as nat);
}

/// The host bits needed for `hosts` hosts under the given IP version.
///
/// Version 4 yields the bit length of `hosts`; version 6 is refused as
/// unsupported and any other version as invalid.
pub fn calculate_host_bits(hosts: &u32, version: &u8) -> (result: Result<u32, SubnetError>)
    ensures
        match result {
            Ok(bits) => SubnetError::for_version(*version) is None && bits == host_bits(*hosts)
                && bits == 32 - u32_leading_zeros(*hosts),
            Err(e) => SubnetError::for_version(*version) == Some(e),
        },
{
    match SubnetError::check_version(*version) {
        Some(e) => Err(e),
        None => {
            proof {
                lemma_host_bits_counts_leading_zeros(*hosts);
            }
            Ok(32u32 - hosts.leading_zeros())
        },
    }
}

} // verus!
