use vstd::prelude::*;

use crate::types::TypeTag;

verus! {

/// The hashing seed fixed for the whole build. With `Some`, function hashes
/// are the same in every run; with `None` the built-in default seed is used.
pub const FIXED_HASH_SEED: Option<[u64; 4]> = None;

/// The seed used where none is fixed.
pub const DEFAULT_HASH_SEED: [u64; 4] = [
    0x243f_6a88_85a3_08d3,
    0x1319_8a2e_0370_7344,
    0xa409_3822_299f_31d0,
    0x082e_fa98_ec4e_6c89,
];

/// Multiplier of the mixing step.
pub const HASH_PRIME: u64 = 0x0000_0100_0000_01b3;

/// Basis of the hash before the seed is mixed in.
pub const HASH_BASIS: u64 = 0xcbf2_9ce4_8422_2325;

/// Marks the end of the name, and is never a character's code.
pub const NAME_END: u64 = 0xffff_ffff_ffff_ffff;

/// One mixing step: exclusive or, then multiplication modulo 2^64.
pub open spec fn mix(h: u64, x: u64) -> u64 {
    (((h ^ x) as nat * HASH_PRIME as nat) % 0x1_0000_0000_0000_0000nat) as u64
}

fn mix_exec(h: u64, x: u64) -> (r: u64)
    ensures
        r == mix(h, x),
{
    (h ^ x).wrapping_mul(HASH_PRIME)
}

pub open spec fn hash_words(h: u64, s: Seq<u64>) -> u64
    decreases s.len(),
{
    if s.len() == 0 {
        h
    } else {
        mix(hash_words(h, s.drop_last()), s.last())
    }
}

pub open spec fn hash_chars(h: u64, s: Seq<char>) -> u64
    decreases s.len(),
{
    if s.len() == 0 {
        h
    } else {
        mix(hash_chars(h, s.drop_last()), s.last() as u32 as u64)
    }
}

pub open spec fn hash_tags(h: u64, s: Seq<TypeTag>) -> u64
    decreases s.len(),
{
    if s.len() == 0 {
        h
    } else {
        mix(hash_tags(h, s.drop_last()), s.last().spec_code())
    }
}

/// The seed in effect: the fixed one where set, else the default one.
pub open spec fn spec_seed() -> Seq<u64> {
    match FIXED_HASH_SEED {
        Some(s) => s@,
        None => DEFAULT_HASH_SEED@,
    }
}

/// The overload hash of a function: the seed, then the characters of its
/// name, then the type of each parameter in order.
pub open spec fn spec_fn_hash(name: Seq<char>, params: Seq<TypeTag>) -> u64 {
    hash_tags(mix(hash_chars(hash_words(HASH_BASIS, spec_seed()), name), NAME_END), params)
}

/// Computes the overload hash of a function from its name and the types of
/// its parameters.
pub fn calc_fn_hash(name: &str, params: &[TypeTag]) -> (r: u64)
    ensures
        r == spec_fn_hash(name@, params@),
{
    let seed: [u64; 4] = match FIXED_HASH_SEED {
        Some(s) => s,
        None => DEFAULT_HASH_SEED,
    };
    let mut h: u64 = HASH_BASIS;
    let mut i: usize = 0;
    while i < 4
        invariant
            i <= 4,
            seed@ == spec_seed(),
            h == hash_words(HASH_BASIS, seed@.take(i as int)),
        decreases 4 - i,
    {
        proof {
            assert(seed@.take(i + 1).drop_last() =~= seed@.take(i as int));
        }
        h = mix_exec(h, seed[i]);
        i = i + 1;
    }
    assert(seed@.take(4) =~= seed@);
    let ghost start = h;
    let ghost mut seen: Seq<char> = Seq::empty();
    proof {
        broadcast use vstd::string::axiom_spec_iter;
    }
    for c in it: name.chars()
        invariant
            it.seq() == name@,
            seen == it.seq().take(it.index() as int),
            h == hash_chars(start, seen),
    {
        proof {
            assert(it.seq().take(it.index() + 1).drop_last() =~= it.seq().take(it.index() as int));
            assert(it.seq().take(it.index() + 1) =~= seen.push(c));
            seen = seen.push(c);
        }
        h = mix_exec(h, c as u32 as u64);
    }
    assert(seen =~= name@);
    h = mix_exec(h, NAME_END);
    let ghost middle = h;
    let mut j: usize = 0;
    while j < params.len()
        invariant
            j <= params@.len(),
            h == hash_tags(middle, params@.take(j as int)),
        decreases params@.len() - j,
    {
        proof {
            assert(params@.take(j + 1).drop_last() =~= params@.take(j as int));
        }
        h = mix_exec(h, params[j].code());
        j = j + 1;
    }
    assert(params@.take(params@.len() as int) =~= params@);
    h
}

} // verus!
