//! Account addresses and their deterministic, seed-based derivation.

use anchor_lang::prelude::Pubkey;
use vstd::prelude::*;

verus! {

/// A 32-byte account address.
#[derive(Clone, Copy, Debug, PartialEq, Eq, Hash)]
pub struct Address {
    pub bytes: [u8; 32],
}

impl View for Address {
    type V = Seq<u8>;

    open spec fn view(&self) -> Seq<u8> {
        self.bytes@
    }
}

impl Address {
    pub fn new(bytes: [u8; 32]) -> (r: Address)
        ensures
            r.bytes == bytes,
    {
        Address { bytes }
    }
}

/// The address that the program-address search finds for `program` and
/// `seeds`, or `None` where no bump byte gives a valid address.
pub uninterp spec fn program_address_of(program: [u8; 32], seeds: Seq<Seq<u8>>) -> Option<[u8; 32]>;

/// The seeds as byte sequences.
pub open spec fn seeds_view(seeds: Seq<Vec<u8>>) -> Seq<Seq<u8>> {
    seeds.map_values(|s: Vec<u8>| s@)
}

/// The derived address as an `Address`.
pub open spec fn derived(program: Address, seeds: Seq<Seq<u8>>) -> Option<Address> {
    match program_address_of(program.bytes, seeds) {
        Some(b) => Some(Address { bytes: b }),
        None => None,
    }
}

/// Relies on `Pubkey::try_find_program_address`: a pure function of the
/// seeds and the program id, returning `None` (and never panicking) where no
/// bump byte yields an address off the curve.
#[verifier::external_body]
fn try_find_program_address(seeds: &Vec<Vec<u8>>, program: &Address) -> (r: Option<Address>)
    ensures
        r.is_some() == program_address_of(program.bytes, seeds_view(seeds@)).is_some(),
        r.is_some() ==> r.unwrap().bytes == program_address_of(program.bytes, seeds_view(seeds@)).unwrap(),
{
    let refs: Vec<&[u8]> = seeds.iter().map(|s| s.as_slice()).collect();
    let program_id = Pubkey::new_from_array(program.bytes);
    Pubkey::try_find_program_address(&refs, &program_id).map(|(key, _bump)| Address { bytes: key.to_bytes() })
}

/// Derives the program address of `program` for `seeds`.
pub fn derive_address(program: &Address, seeds: &Vec<Vec<u8>>) -> (r: Option<Address>)
    ensures
        r == derived(*program, seeds_view(seeds@)),
{
    try_find_program_address(seeds, program)
}

/// The bytes of an address, as a seed.
pub fn address_seed(a: &Address) -> (r: Vec<u8>)
    ensures
        r@ == a@,
{
    let mut out: Vec<u8> = Vec::new();
    let mut i: usize = 0;
    while i < 32
        invariant
            i <= 32,
            a@.len() == 32,
            out@ == a@.subrange(0, i as int),
        decreases 32 - i,
    {
        out.push(a.bytes[i]);
        i = i + 1;
        assert(out@ =~= a@.subrange(0, i as int));
    }
    assert(out@ =~= a@);
    out
}

/// A seed holding `bytes`.
pub fn seed_from(bytes: &[u8]) -> (r: Vec<u8>)
    ensures
        r@ == bytes@,
{
    let mut v: Vec<u8> = Vec::new();
    let mut i: usize = 0;
    while i < bytes.len()
        invariant
            i <= bytes@.len(),
            v@ == bytes@.subrange(0, i as int),
        decreases bytes@.len() - i,
    {
        v.push(bytes[i]);
        i = i + 1;
        assert(v@ =~= bytes@.subrange(0, i as int));
    }
    assert(v@ =~= bytes@);
    v
}

/// The `n` low bytes of `x`, least significant first.
pub open spec fn le_bytes(x: nat, n: nat) -> Seq<u8>
    decreases n,
{
    if n == 0 {
        Seq::empty()
    } else {
        seq![(x % 256) as u8] + le_bytes(x / 256, (n - 1) as nat)
    }
}

/// The two's-complement value of `v` as an unsigned 64-bit number.
pub open spec fn twos_complement(v: int) -> nat {
    if v >= 0 {
        v as nat
    } else {
        (v + 0x1_0000_0000_0000_0000) as nat
    }
}

/// The little-endian bytes of `v`, as `i64::to_le_bytes` lays them out.
pub fn i64_le_bytes(v: i64) -> (r: Vec<u8>)
    ensures
        r@ == le_bytes(twos_complement(v as int), 8),
{
    let mut x: u64 = if v >= 0 {
        v as u64
    } else {
        ((v + i64::MAX + 1) as u64) + 0x8000_0000_0000_0000u64
    };
    let mut out: Vec<u8> = Vec::new();
    let mut i: usize = 0;
    while i < 8
        invariant
            i <= 8,
            out@ + le_bytes(x as nat, (8 - i) as nat) == le_bytes(twos_complement(v as int), 8),
        decreases 8 - i,
    {
        let ghost before = out@;
        out.push((x % 256) as u8);
        assert(le_bytes(x as nat, (8 - i) as nat) == seq![(x % 256) as u8] + le_bytes((x / 256) as nat, (8 - i - 1) as nat));
        assert(out@ + le_bytes((x / 256) as nat, (8 - i - 1) as nat) =~= before + le_bytes(x as nat, (8 - i) as nat));
        x = x / 256;
        i = i + 1;
    }
    assert(out@ =~= out@ + le_bytes(x as nat, 0));
    out
}

} // verus!
