//! The four octets of a 32-bit mask, most significant first.

use vstd::arithmetic::div_mod::lemma_fundamental_div_mod_converse;
use vstd::prelude::*;

verus! {

/// Octet `index` of `mask` in big-endian order: index 0 is the most
/// significant byte, index 3 the least.
pub open spec fn mask_octet(mask: u32, index: int) -> int {
    let word = mask as int;
    if index == 0 {
        word / 0x100_0000
    } else if index == 1 {
        word / 0x1_0000 % 0x100
    } else if index == 2 {
        word / 0x100 % 0x100
    } else {
        word % 0x100
    }
}

/// The big-endian octets of `mask`.
pub open spec fn mask_octets(mask: u32) -> Seq<u8> {
    Seq::new(4, |index: int| mask_octet(mask, index) as u8)
}

/// The number that four octets spell when read as a big-endian word.
pub open spec fn join_octets(octets: Seq<u8>) -> int {
    octets[0] * 0x100_0000 + octets[1] * 0x1_0000 + octets[2] * 0x100 + octets[3]
}

/// What is left of `mask` once the octets from `index` on are shifted out.
spec fn octets_before(mask: u32, index: int) -> int {
    let word = mask as int;
    if index >= 4 {
        word
    } else if index == 3 {
        word / 0x100
    } else if index == 2 {
        word / 0x1_0000
    } else if index == 1 {
        word / 0x100_0000
    } else {
        0
    }
}

/// Splitting a word into octets and joining them again gives the word back.
pub proof fn lemma_split_then_join(mask: u32)
    ensures
        mask_octets(mask).len() == 4,
        forall|index: int| 0 <= index < 4 ==> mask_octets(mask)[index] == mask_octet(mask, index),
        join_octets(mask_octets(mask)) == mask,
{
}

/// Joining four octets and splitting the word again gives the octets back,
/// so a word has one octet form only.
pub proof fn lemma_join_then_split(octets: Seq<u8>)
    requires
        octets.len() == 4,
    ensures
        0 <= join_octets(octets) <= u32::MAX,
        mask_octets(join_octets(octets) as u32) == octets,
{
    let first = octets[0] as int;
    let second = octets[1] as int;
    let third = octets[2] as int;
    let fourth = octets[3] as int;
    let word = join_octets(octets);
    let upper = first * 0x1_0000 + second * 0x100 + third;
    lemma_fundamental_div_mod_converse(word, 0x100, upper, fourth);
    lemma_fundamental_div_mod_converse(
        word,
        0x1_0000,
        first * 0x100 + second,
        third * 0x100 + fourth,
    );
    lemma_fundamental_div_mod_converse(
        word,
        0x100_0000,
        first,
        second * 0x1_0000 + third * 0x100 + fourth,
    );
    assert(mask_octets(word as u32) =~= octets);
}

/// The big-endian octets of `mask`.
pub fn calculate_mask_octets(mask: u32) -> (octets: [u8; 4])
    ensures
        octets@ == mask_octets(mask),
        join_octets(octets@) == mask,
{
    let mut octets: [u8; 4] = [0, 0, 0, 0];
    let mut rest: u32 = mask;
    let mut index: usize = 4;
    while index > 0
        invariant
            index <= 4,
            rest == octets_before(mask, index as int),
            forall|done: int| index <= done < 4 ==> octets[done] == mask_octet(mask, done),
        decreases index,
    {
        index = index - 1;
        assert(rest & 0xFF == rest % 0x100) by (bit_vector);
        assert(rest >> 8 == rest / 0x100) by (bit_vector);
        octets[index] = (rest & 0xFF) as u8;
        rest = rest >> 8;
    }
    proof {
        assert(octets@ =~= mask_octets(mask));
    }
    octets
}

} // verus!
