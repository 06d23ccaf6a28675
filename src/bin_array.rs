//! Locating the bin arrays that a swap passes through.

use crate::address::{address_seed, derive_address, derived, i64_le_bytes, le_bytes, seed_from, twos_complement, Address};
use vstd::prelude::*;

verus! {

/// Number of bins held by one bin array.
pub const MAX_BIN_PER_ARRAY: i32 = 70;

/// Floor division for a positive divisor: `int` division rounds toward
/// negative infinity when the divisor is positive.
pub open spec fn floor_divide(p: int, width: int) -> int
    recommends
        width > 0,
{
    p / width
}

/// Floor division of `p` by a positive `width`, rounding toward negative
/// infinity also for negative `p`.
pub fn floor_div(p: i32, width: i32) -> (r: i32)
    requires
        width > 0,
    ensures
        r == floor_divide(p as int, width as int),
        r * width <= p < (r + 1) * width,
{
    let w = width as i64;
    if p >= 0 {
        let q = (p as i64) / w;
        proof {
            lemma_floor_div_bounds(p as int, width as int);
        }
        q as i32
    } else {
        let m = -(p as i64) - 1;
        let q = -(m / w) - 1;
        proof {
            lemma_negative_floor(p as int, width as int);
            lemma_floor_div_bounds(p as int, width as int);
        }
        q as i32
    }
}

proof fn lemma_floor_div_bounds(p: int, w: int)
    requires
        w > 0,
    ensures
        (p / w) * w <= p < (p / w + 1) * w,
        p >= 0 ==> 0 <= p / w <= p,
        p < 0 ==> p <= p / w < 0,
{
    vstd::arithmetic::div_mod::lemma_fundamental_div_mod(p, w);
    vstd::arithmetic::div_mod::lemma_mod_bound(p, w);
    assert((p / w) * w <= p) by (nonlinear_arith)
        requires
            p == w * (p / w) + p % w,
            0 <= p % w,
    ;
    if p >= 0 {
        vstd::arithmetic::div_mod::lemma_div_pos_is_pos(p, w);
        vstd::arithmetic::div_mod::lemma_div_is_ordered_by_denominator(p, 1, w);
    } else {
        assert(p / w < 0) by (nonlinear_arith)
            requires
                p == w * (p / w) + p % w,
                p % w < w,
                p < 0,
                w > 0,
        ;
        assert(p <= p / w) by (nonlinear_arith)
            requires
                (p / w) * w <= p,
                p / w < 0,
                w > 0,
        ;
    }
    assert(p < (p / w + 1) * w) by (nonlinear_arith)
        requires
            p == w * (p / w) + p % w,
            p % w < w,
    ;
}

proof fn lemma_negative_floor(p: int, w: int)
    requires
        w > 0,
        p < 0,
    ensures
        -((-p - 1) / w) - 1 == p / w,
{
    let m = -p - 1;
    lemma_floor_div_bounds(m, w);
    lemma_floor_div_bounds(p, w);
    let q = -(m / w) - 1;
    // q * w <= p < (q + 1) * w characterises p / w
    assert(q * w <= p < (q + 1) * w) by (nonlinear_arith)
        requires
            (m / w) * w <= m < (m / w + 1) * w,
            m == -p - 1,
            q == -(m / w) - 1,
    ;
    lemma_floor_unique(p, w, q);
}

proof fn lemma_floor_unique(p: int, w: int, q: int)
    requires
        w > 0,
        q * w <= p < (q + 1) * w,
    ensures
        q == p / w,
{
    lemma_floor_div_bounds(p, w);
    let d = p / w;
    if q < d {
        assert((q + 1) * w <= d * w) by (nonlinear_arith)
            requires
                q + 1 <= d,
                w > 0,
        ;
    } else if q > d {
        assert((d + 1) * w <= q * w) by (nonlinear_arith)
            requires
                d + 1 <= q,
                w > 0,
        ;
    }
}

/// Index of the bin array that holds `bin_id`.
pub fn bin_id_to_bin_array_index(bin_id: i32) -> (r: i32)
    ensures
        r == floor_divide(bin_id as int, MAX_BIN_PER_ARRAY as int),
        r * MAX_BIN_PER_ARRAY <= bin_id < (r + 1) * MAX_BIN_PER_ARRAY,
{
    floor_div(bin_id, MAX_BIN_PER_ARRAY)
}

/// The bin-array index never decreases as the bin id grows, and two bins of
/// the same bin array share that array's derived address.
pub proof fn lemma_bin_array_index_monotone(program: Address, pool: Address, p: i32, q: i32)
    requires
        p <= q,
    ensures
        floor_divide(p as int, MAX_BIN_PER_ARRAY as int) <= floor_divide(q as int, MAX_BIN_PER_ARRAY as int),
        floor_divide(p as int, MAX_BIN_PER_ARRAY as int) == floor_divide(q as int, MAX_BIN_PER_ARRAY as int)
            ==> bin_array_address(program, pool, floor_divide(p as int, MAX_BIN_PER_ARRAY as int))
            == bin_array_address(program, pool, floor_divide(q as int, MAX_BIN_PER_ARRAY as int)),
{
    vstd::arithmetic::div_mod::lemma_div_is_ordered(p as int, q as int, MAX_BIN_PER_ARRAY as int);
}

/// The two bin-array indices beyond `active` in the direction the price
/// moves: downward when selling X for Y, upward otherwise.
pub open spec fn outward_index(active: int, swap_for_y: bool, step: int) -> int {
    if swap_for_y {
        active - step
    } else {
        active + step
    }
}

/// The bin-array indices a swap needs, nearest first: the active one, then
/// the next two in the swap's direction.
pub open spec fn bin_array_indices(active: int, swap_for_y: bool) -> Seq<int> {
    seq![active, outward_index(active, swap_for_y, 1), outward_index(active, swap_for_y, 2)]
}

/// Selling X for Y needs the arrays one and two below the active one, the
/// other direction the arrays one and two above it; the three indices are
/// pairwise distinct.
pub proof fn lemma_outward_indices(active: int, swap_for_y: bool)
    ensures
        swap_for_y ==> bin_array_indices(active, swap_for_y) == seq![active, active - 1, active - 2],
        !swap_for_y ==> bin_array_indices(active, swap_for_y) == seq![active, active + 1, active + 2],
        forall|i: int, j: int|
            0 <= i < j < 3 ==> bin_array_indices(active, swap_for_y)[i] != bin_array_indices(active, swap_for_y)[j],
{
}

/// Seed that prefixes every bin-array address.
pub open spec fn bin_array_tag() -> Seq<u8> {
    seq![98u8, 105u8, 110u8, 95u8, 97u8, 114u8, 114u8, 97u8, 121u8]
}

/// Seeds of the bin array at `index` of the pool at `pool`.
pub open spec fn bin_array_seeds(pool: Address, index: int) -> Seq<Seq<u8>> {
    seq![bin_array_tag(), pool@, le_bytes(twos_complement(index), 8)]
}

/// Address of the bin array at `index` of `pool`.
pub open spec fn bin_array_address(program: Address, pool: Address, index: int) -> Option<Address> {
    derived(program, bin_array_seeds(pool, index))
}

/// Derives the address of the bin array at `index` of the pool at `pool`.
pub fn derive_bin_array_pda(program: &Address, pool: &Address, index: i64) -> (r: Option<Address>)
    ensures
        r == bin_array_address(*program, *pool, index as int),
{
    let tag: [u8; 9] = [98, 105, 110, 95, 97, 114, 114, 97, 121];
    let mut seeds: Vec<Vec<u8>> = Vec::new();
    seeds.push(seed_from(tag.as_slice()));
    assert(tag@ =~= bin_array_tag());
    seeds.push(address_seed(pool));
    seeds.push(i64_le_bytes(index));
    assert(crate::address::seeds_view(seeds@) =~= bin_array_seeds(*pool, index as int));
    derive_address(program, &seeds)
}

/// The addresses of the bin arrays a swap needs, nearest to the active bin
/// first, or `None` where one of them cannot be derived.
pub open spec fn located_bin_arrays(program: Address, pool: Address, active_id: int, swap_for_y: bool) -> Option<Seq<Address>> {
    let idx = bin_array_indices(floor_divide(active_id, MAX_BIN_PER_ARRAY as int), swap_for_y);
    let a0 = bin_array_address(program, pool, idx[0]);
    let a1 = bin_array_address(program, pool, idx[1]);
    let a2 = bin_array_address(program, pool, idx[2]);
    if a0.is_some() && a1.is_some() && a2.is_some() {
        Some(seq![a0.unwrap(), a1.unwrap(), a2.unwrap()])
    } else {
        None
    }
}

/// Locates the bin array holding the active bin and the two beyond it in the
/// swap's direction.
pub fn locate_bin_arrays(program: &Address, pool: &Address, active_id: i32, swap_for_y: bool) -> (r: Option<Vec<Address>>)
    ensures
        match r {
            Some(v) => located_bin_arrays(*program, *pool, active_id as int, swap_for_y) == Some(v@),
            None => located_bin_arrays(*program, *pool, active_id as int, swap_for_y).is_none(),
        },
{
    let active = bin_id_to_bin_array_index(active_id) as i64;
    let (first, second) = if swap_for_y {
        (active - 1, active - 2)
    } else {
        (active + 1, active + 2)
    };
    let a0 = derive_bin_array_pda(program, pool, active);
    let a1 = derive_bin_array_pda(program, pool, first);
    let a2 = derive_bin_array_pda(program, pool, second);
    match (a0, a1, a2) {
        (Some(x0), Some(x1), Some(x2)) => {
            let mut v: Vec<Address> = Vec::new();
            v.push(x0);
            v.push(x1);
            v.push(x2);
            assert(v@ =~= seq![x0, x1, x2]);
            Some(v)
        },
        _ => None,
    }
}

} // verus!
