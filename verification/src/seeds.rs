//! The seeds of the program-derived address that acts as mint authority.

use vstd::prelude::*;

verus! {

/// The text `authority`, as bytes: the only fixed seed of the address that
/// holds authority over every mint this program touches.
pub const AUTHORITY_SEED: [u8; 9] = [97, 117, 116, 104, 111, 114, 105, 116, 121];

/// The seeds that sign for the mint authority, given the bump that was found
/// when its address was derived: the seed text, then the bump as one byte.
pub open spec fn authority_signer_seeds(bump: u8) -> Seq<Seq<u8>> {
    seq![AUTHORITY_SEED@, seq![bump]]
}

/// Builds the seeds with which the program signs as the mint authority.
pub fn signer_seeds(bump: u8) -> (seeds: Vec<Vec<u8>>)
    ensures
        seeds.deep_view() == authority_signer_seeds(bump),
{
    let mut text: Vec<u8> = Vec::new();
    let mut i: usize = 0;
    while i < 9
        invariant
            i <= 9,
            text@ == AUTHORITY_SEED@.take(i as int),
        decreases 9 - i,
    {
        text.push(AUTHORITY_SEED[i]);
        assert(AUTHORITY_SEED@.take(i as int).push(AUTHORITY_SEED@[i as int])
            =~= AUTHORITY_SEED@.take(i + 1));
        i += 1;
    }
    assert(text@ =~= AUTHORITY_SEED@);
    let mut last: Vec<u8> = Vec::new();
    last.push(bump);
    assert(last@ =~= seq![bump]);
    let mut seeds: Vec<Vec<u8>> = Vec::new();
    seeds.push(text);
    seeds.push(last);
    assert(seeds.deep_view()[0] =~= AUTHORITY_SEED@);
    assert(seeds.deep_view()[1] =~= seq![bump]);
    assert(seeds.deep_view() =~= authority_signer_seeds(bump));
    seeds
}

} // verus!
