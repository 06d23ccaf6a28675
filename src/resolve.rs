//! Resolving a swap request against a pool's state.

use crate::accounts::{writable, AccountEntry, ResolvedSwap, SwapAccounts, SwapInstruction};
use crate::address::{address_seed, derive_address, derived, seed_from, Address};
use crate::bin_array::{located_bin_arrays, locate_bin_arrays};
use vstd::prelude::*;

verus! {

/// Compute units requested for the transaction that carries a swap.
pub const COMPUTE_UNIT_LIMIT: u32 = 1_400_000;

/// The program ids a swap refers to.
#[derive(Clone, Copy, Debug, PartialEq, Eq, Hash)]
pub struct ProgramIds {
    /// The liquidity-pool program.
    pub dlmm: Address,
    /// The token program of both pool tokens.
    pub token: Address,
    /// The associated-token-account program.
    pub associated_token: Address,
}

/// What a swap reads of a pool.
#[derive(Clone, Copy, Debug, PartialEq, Eq, Hash)]
pub struct PoolState {
    pub active_id: i32,
    pub reserve_x: Address,
    pub reserve_y: Address,
    pub token_x_mint: Address,
    pub token_y_mint: Address,
    pub oracle: Address,
}

/// A swap request: the pool, the amount put in, and the direction
/// (`swap_for_y`: token X in, token Y out).
#[derive(Clone, Copy, Debug, PartialEq, Eq, Hash)]
pub struct SwapParameters {
    pub lb_pair: Address,
    pub amount_in: u64,
    pub swap_for_y: bool,
}

#[derive(Clone, Copy, Debug, PartialEq, Eq, Structural)]
pub enum SwapError {
    /// The pool account is absent or holds no pool.
    NotFound,
    /// An address derivation found no valid bump seed.
    DerivationFailure,
}

pub open spec fn bitmap_tag() -> Seq<u8> {
    seq![98u8, 105u8, 116u8, 109u8, 97u8, 112u8]
}

pub open spec fn event_authority_tag() -> Seq<u8> {
    seq![95u8, 95u8, 101u8, 118u8, 101u8, 110u8, 116u8, 95u8, 97u8, 117u8, 116u8, 104u8, 111u8, 114u8, 105u8, 116u8, 121u8]
}

/// Address of the bin-array bitmap extension of `pool`.
pub open spec fn bitmap_extension_of(ids: ProgramIds, pool: Address) -> Option<Address> {
    derived(ids.dlmm, seq![bitmap_tag(), pool@])
}

/// Address of the program's event authority.
pub open spec fn event_authority_of(ids: ProgramIds) -> Option<Address> {
    derived(ids.dlmm, seq![event_authority_tag()])
}

/// Address of the associated token account of `owner` for `mint`.
pub open spec fn associated_token_of(ids: ProgramIds, owner: Address, mint: Address) -> Option<Address> {
    derived(ids.associated_token, seq![owner@, ids.token@, mint@])
}

/// Derives the address of the bin-array bitmap extension of `pool`.
pub fn derive_bin_array_bitmap_extension(ids: &ProgramIds, pool: &Address) -> (r: Option<Address>)
    ensures
        r == bitmap_extension_of(*ids, *pool),
{
    let tag: [u8; 6] = [98, 105, 116, 109, 97, 112];
    let mut seeds: Vec<Vec<u8>> = Vec::new();
    seeds.push(seed_from(tag.as_slice()));
    seeds.push(address_seed(pool));
    assert(tag@ =~= bitmap_tag());
    assert(crate::address::seeds_view(seeds@) =~= seq![bitmap_tag(), pool@]);
    derive_address(&ids.dlmm, &seeds)
}

/// Derives the address of the program's event authority.
pub fn derive_event_authority(ids: &ProgramIds) -> (r: Option<Address>)
    ensures
        r == event_authority_of(*ids),
{
    let tag: [u8; 17] = [95, 95, 101, 118, 101, 110, 116, 95, 97, 117, 116, 104, 111, 114, 105, 116, 121];
    let mut seeds: Vec<Vec<u8>> = Vec::new();
    seeds.push(seed_from(tag.as_slice()));
    assert(tag@ =~= event_authority_tag());
    assert(crate::address::seeds_view(seeds@) =~= seq![event_authority_tag()]);
    derive_address(&ids.dlmm, &seeds)
}

/// Derives the associated token account of `owner` for `mint`.
pub fn get_associated_token_address(ids: &ProgramIds, owner: &Address, mint: &Address) -> (r: Option<Address>)
    ensures
        r == associated_token_of(*ids, *owner, *mint),
{
    let mut seeds: Vec<Vec<u8>> = Vec::new();
    seeds.push(address_seed(owner));
    seeds.push(address_seed(&ids.token));
    seeds.push(address_seed(mint));
    assert(crate::address::seeds_view(seeds@) =~= seq![owner@, ids.token@, mint@]);
    derive_address(&ids.associated_token, &seeds)
}

/// The result of a resolution, with the bin arrays as a sequence.
pub type Resolution = Result<(SwapAccounts, Seq<AccountEntry>, SwapInstruction), SwapError>;

pub open spec fn outcome(r: Result<ResolvedSwap, SwapError>) -> Resolution {
    match r {
        Ok(s) => Ok((s.accounts, s.remaining_accounts@, s.instruction)),
        Err(e) => Err(e),
    }
}

/// What resolving `params` against `pool` gives: `NotFound` without a pool,
/// `DerivationFailure` where an address cannot be derived, and otherwise the
/// fixed accounts (the bitmap extension present exactly when it exists), the
/// three bin arrays as writable entries, and the payload.
pub open spec fn resolution(
    params: SwapParameters,
    min_amount_out: u64,
    user: Address,
    ids: ProgramIds,
    pool: Option<PoolState>,
    bitmap_extension_exists: bool,
) -> Resolution {
    match pool {
        None => Err(SwapError::NotFound),
        Some(state) => {
            let mint_in = if params.swap_for_y { state.token_x_mint } else { state.token_y_mint };
            let mint_out = if params.swap_for_y { state.token_y_mint } else { state.token_x_mint };
            let bitmap = bitmap_extension_of(ids, params.lb_pair);
            let token_in = associated_token_of(ids, user, mint_in);
            let token_out = associated_token_of(ids, user, mint_out);
            let authority = event_authority_of(ids);
            let arrays = located_bin_arrays(ids.dlmm, params.lb_pair, state.active_id as int, params.swap_for_y);
            if (bitmap_extension_exists ==> bitmap.is_some()) && token_in.is_some() && token_out.is_some()
                && authority.is_some() && arrays.is_some() {
                let accounts = SwapAccounts {
                    lb_pair: params.lb_pair,
                    bin_array_bitmap_extension: if bitmap_extension_exists { bitmap } else { None },
                    reserve_x: state.reserve_x,
                    reserve_y: state.reserve_y,
                    token_x_mint: state.token_x_mint,
                    token_y_mint: state.token_y_mint,
                    token_x_program: ids.token,
                    token_y_program: ids.token,
                    user,
                    user_token_in: token_in.unwrap(),
                    user_token_out: token_out.unwrap(),
                    oracle: state.oracle,
                    host_fee_in: Some(ids.dlmm),
                    event_authority: authority.unwrap(),
                    program: ids.dlmm,
                };
                let payload = SwapInstruction { program_id: ids.dlmm, amount_in: params.amount_in, min_amount_out };
                Ok((accounts, arrays.unwrap().map_values(|a: Address| writable(a)), payload))
            } else {
                Err(SwapError::DerivationFailure)
            }
        },
    }
}

/// Resolving the same request against the same pool state twice gives the
/// same accounts, bin arrays and payload.
pub proof fn lemma_resolution_deterministic(
    params: SwapParameters,
    min_amount_out: u64,
    user: Address,
    ids: ProgramIds,
    pool: Option<PoolState>,
    bitmap_extension_exists: bool,
    first: Result<ResolvedSwap, SwapError>,
    second: Result<ResolvedSwap, SwapError>,
)
    requires
        outcome(first) == resolution(params, min_amount_out, user, ids, pool, bitmap_extension_exists),
        outcome(second) == resolution(params, min_amount_out, user, ids, pool, bitmap_extension_exists),
    ensures
        outcome(first) == outcome(second),
        first.is_ok() ==> first.unwrap().remaining_accounts@ == second.unwrap().remaining_accounts@,
{
}

/// Resolves a swap against the pool's state, `None` where the pool account
/// was not found or holds no pool; `bitmap_extension_exists` is whether the
/// pool's bitmap-extension account exists.
pub fn resolve_swap(
    params: &SwapParameters,
    min_amount_out: u64,
    user: &Address,
    ids: &ProgramIds,
    pool: Option<PoolState>,
    bitmap_extension_exists: bool,
) -> (r: Result<ResolvedSwap, SwapError>)
    ensures
        outcome(r) == resolution(*params, min_amount_out, *user, *ids, pool, bitmap_extension_exists),
        pool.is_none() ==> r == Err::<ResolvedSwap, SwapError>(SwapError::NotFound),
        r.is_ok() ==> (r.unwrap().accounts.bin_array_bitmap_extension.is_some() == bitmap_extension_exists),
{
    let state = match pool {
        None => return Err(SwapError::NotFound),
        Some(s) => s,
    };
    let (mint_in, mint_out) = if params.swap_for_y {
        (state.token_x_mint, state.token_y_mint)
    } else {
        (state.token_y_mint, state.token_x_mint)
    };
    let bitmap = if bitmap_extension_exists {
        match derive_bin_array_bitmap_extension(ids, &params.lb_pair) {
            Some(a) => Some(a),
            None => return Err(SwapError::DerivationFailure),
        }
    } else {
        None
    };
    let user_token_in = match get_associated_token_address(ids, user, &mint_in) {
        Some(a) => a,
        None => return Err(SwapError::DerivationFailure),
    };
    let user_token_out = match get_associated_token_address(ids, user, &mint_out) {
        Some(a) => a,
        None => return Err(SwapError::DerivationFailure),
    };
    let event_authority = match derive_event_authority(ids) {
        Some(a) => a,
        None => return Err(SwapError::DerivationFailure),
    };
    let arrays = match locate_bin_arrays(&ids.dlmm, &params.lb_pair, state.active_id, params.swap_for_y) {
        Some(v) => v,
        None => return Err(SwapError::DerivationFailure),
    };
    let accounts = SwapAccounts {
        lb_pair: params.lb_pair,
        bin_array_bitmap_extension: bitmap,
        reserve_x: state.reserve_x,
        reserve_y: state.reserve_y,
        token_x_mint: state.token_x_mint,
        token_y_mint: state.token_y_mint,
        token_x_program: ids.token,
        token_y_program: ids.token,
        user: *user,
        user_token_in,
        user_token_out,
        oracle: state.oracle,
        host_fee_in: Some(ids.dlmm),
        event_authority,
        program: ids.dlmm,
    };
    let mut remaining_accounts: Vec<AccountEntry> = Vec::new();
    let mut i: usize = 0;
    while i < arrays.len()
        invariant
            i <= arrays@.len(),
            remaining_accounts@ == arrays@.subrange(0, i as int).map_values(|a: Address| writable(a)),
        decreases arrays@.len() - i,
    {
        remaining_accounts.push(AccountEntry { pubkey: arrays[i], is_signer: false, is_writable: true });
        i = i + 1;
        assert(remaining_accounts@ =~= arrays@.subrange(0, i as int).map_values(|a: Address| writable(a)));
    }
    assert(arrays@.subrange(0, i as int) =~= arrays@);
    let instruction = SwapInstruction { program_id: ids.dlmm, amount_in: params.amount_in, min_amount_out };
    Ok(ResolvedSwap { accounts, remaining_accounts, instruction })
}

} // verus!
