use std::str::FromStr;

use anchor_lang::prelude::Pubkey;
use dlmm_swap::accounts::AccountEntry;
use dlmm_swap::address::{address_seed, derive_address, i64_le_bytes, Address};
use dlmm_swap::bin_array::{bin_id_to_bin_array_index, derive_bin_array_pda, floor_div, locate_bin_arrays, MAX_BIN_PER_ARRAY};
use dlmm_swap::resolve::{
    derive_bin_array_bitmap_extension, derive_event_authority, get_associated_token_address, resolve_swap, PoolState,
    ProgramIds, SwapError, SwapParameters, COMPUTE_UNIT_LIMIT,
};

fn addr(p: &Pubkey) -> Address {
    Address::new(p.to_bytes())
}

fn key(n: u8) -> Address {
    let mut bytes = [0u8; 32];
    bytes[0] = n;
    bytes[31] = n.wrapping_mul(7);
    Address::new(bytes)
}

fn dlmm_program() -> Pubkey {
    Pubkey::from_str("LBUZKhRxPF3XUpBCjp4YzTKgLccjZhTSDM9YuVaPwxo").unwrap()
}

fn ids() -> ProgramIds {
    ProgramIds {
        dlmm: addr(&dlmm_program()),
        token: addr(&anchor_spl::token::ID),
        associated_token: addr(&anchor_spl::associated_token::ID),
    }
}

fn pool_state(active_id: i32) -> PoolState {
    PoolState {
        active_id,
        reserve_x: key(11),
        reserve_y: key(12),
        token_x_mint: key(13),
        token_y_mint: key(14),
        oracle: key(15),
    }
}

fn expected_bin_array(pool: &Address, index: i64) -> Address {
    let pool_key = Pubkey::new_from_array(pool.bytes);
    let (k, _) = Pubkey::find_program_address(&[b"bin_array", pool_key.as_ref(), &index.to_le_bytes()], &dlmm_program());
    addr(&k)
}

#[test]
fn floor_semantics_for_negative_ids() {
    assert_eq!(bin_id_to_bin_array_index(-1), -1);
    assert_eq!(bin_id_to_bin_array_index(-70), -1);
    assert_eq!(bin_id_to_bin_array_index(-71), -2);
    assert_eq!(bin_id_to_bin_array_index(-140), -2);
    assert_eq!(bin_id_to_bin_array_index(0), 0);
    assert_eq!(bin_id_to_bin_array_index(69), 0);
    assert_eq!(bin_id_to_bin_array_index(70), 1);
    assert_eq!(bin_id_to_bin_array_index(140), 2);
}

#[test]
fn floor_div_extremes() {
    assert_eq!(floor_div(i32::MIN, 70), -30678338);
    assert_eq!(floor_div(i32::MAX, 70), 30678337);
    assert_eq!(floor_div(-7, 2), -4);
    assert_eq!(floor_div(7, 2), 3);
    assert_eq!(floor_div(-1, 1), -1);
    assert_eq!(MAX_BIN_PER_ARRAY, 70);
}

#[test]
fn index_is_monotone() {
    let mut prev = bin_id_to_bin_array_index(-500);
    for p in -499..500 {
        let cur = bin_id_to_bin_array_index(p);
        assert!(cur >= prev);
        prev = cur;
    }
}

#[test]
fn le_bytes_match_std() {
    for v in [0i64, 1, -1, 255, 256, -256, i64::MIN, i64::MAX, 123456789] {
        assert_eq!(i64_le_bytes(v), v.to_le_bytes().to_vec());
    }
}

#[test]
fn address_seed_copies_bytes() {
    let a = key(9);
    assert_eq!(address_seed(&a), a.bytes.to_vec());
}

#[test]
fn derive_address_matches_program_address_search() {
    let program = dlmm_program();
    let seeds: Vec<Vec<u8>> = vec![b"oracle".to_vec(), key(3).bytes.to_vec()];
    let got = derive_address(&addr(&program), &seeds).unwrap();
    let (want, _) = Pubkey::find_program_address(&[b"oracle", &key(3).bytes], &program);
    assert_eq!(got, addr(&want));
    assert_ne!(got, addr(&program));
}

#[test]
fn bin_array_pda_matches_seed_layout() {
    let pool = key(1);
    for index in [-3i64, -1, 0, 1, 2, 1000] {
        assert_eq!(derive_bin_array_pda(&ids().dlmm, &pool, index).unwrap(), expected_bin_array(&pool, index));
    }
    assert_eq!(
        derive_bin_array_pda(&ids().dlmm, &pool, 5),
        derive_bin_array_pda(&ids().dlmm, &pool, 5)
    );
}

#[test]
fn outward_indices_by_direction() {
    let pool = key(1);
    let down = locate_bin_arrays(&ids().dlmm, &pool, 0, true).unwrap();
    assert_eq!(down, vec![expected_bin_array(&pool, 0), expected_bin_array(&pool, -1), expected_bin_array(&pool, -2)]);
    let up = locate_bin_arrays(&ids().dlmm, &pool, -1, false).unwrap();
    assert_eq!(up, vec![expected_bin_array(&pool, -1), expected_bin_array(&pool, 0), expected_bin_array(&pool, 1)]);
    assert_ne!(down[0], down[1]);
    assert_ne!(down[1], down[2]);
    assert_ne!(down[0], down[2]);
}

#[test]
fn active_partition_140_selling_x() {
    let pool = key(1);
    let params = SwapParameters { lb_pair: pool, amount_in: 1_000, swap_for_y: true };
    let r = resolve_swap(&params, 10, &key(2), &ids(), Some(pool_state(140)), false).unwrap();
    let want: Vec<AccountEntry> = [2i64, 1, 0]
        .iter()
        .map(|i| AccountEntry { pubkey: expected_bin_array(&pool, *i), is_signer: false, is_writable: true })
        .collect();
    assert_eq!(r.remaining_accounts, want);
}

#[test]
fn unknown_pool_is_not_found() {
    let params = SwapParameters { lb_pair: key(1), amount_in: 5, swap_for_y: false };
    let r = resolve_swap(&params, 1, &key(2), &ids(), None, true);
    assert_eq!(r, Err(SwapError::NotFound));
}

#[test]
fn bitmap_extension_present_when_it_exists() {
    let pool = key(1);
    let params = SwapParameters { lb_pair: pool, amount_in: 5, swap_for_y: false };
    let r = resolve_swap(&params, 1, &key(2), &ids(), Some(pool_state(0)), true).unwrap();
    let pool_key = Pubkey::new_from_array(pool.bytes);
    let (ext, _) = Pubkey::find_program_address(&[b"bitmap", pool_key.as_ref()], &dlmm_program());
    assert_eq!(r.accounts.bin_array_bitmap_extension, Some(addr(&ext)));
    assert_eq!(derive_bin_array_bitmap_extension(&ids(), &pool), Some(addr(&ext)));
    let entries = r.account_entries();
    assert_eq!(entries.len(), 15 + 3);
    assert_eq!(entries[1], AccountEntry { pubkey: addr(&ext), is_signer: false, is_writable: false });
}

#[test]
fn bitmap_extension_absent_when_it_does_not_exist() {
    let pool = key(1);
    let params = SwapParameters { lb_pair: pool, amount_in: 5, swap_for_y: false };
    let r = resolve_swap(&params, 1, &key(2), &ids(), Some(pool_state(0)), false).unwrap();
    assert_eq!(r.accounts.bin_array_bitmap_extension, None);
    let entries = r.account_entries();
    assert_eq!(entries.len(), 14 + 3);
    assert_eq!(entries[1], AccountEntry { pubkey: key(11), is_signer: false, is_writable: true });
}

#[test]
fn resolving_twice_is_identical() {
    let params = SwapParameters { lb_pair: key(1), amount_in: 77, swap_for_y: true };
    let a = resolve_swap(&params, 3, &key(2), &ids(), Some(pool_state(-35)), true);
    let b = resolve_swap(&params, 3, &key(2), &ids(), Some(pool_state(-35)), true);
    assert!(a.is_ok());
    assert_eq!(a, b);
}

#[test]
fn user_accounts_follow_direction() {
    let user = key(2);
    let user_key = Pubkey::new_from_array(user.bytes);
    let x = Pubkey::new_from_array(key(13).bytes);
    let y = Pubkey::new_from_array(key(14).bytes);
    let ata_x = addr(&anchor_spl::associated_token::get_associated_token_address(&user_key, &x));
    let ata_y = addr(&anchor_spl::associated_token::get_associated_token_address(&user_key, &y));
    assert_eq!(get_associated_token_address(&ids(), &user, &key(13)), Some(ata_x));

    let sell_x = SwapParameters { lb_pair: key(1), amount_in: 5, swap_for_y: true };
    let r = resolve_swap(&sell_x, 1, &user, &ids(), Some(pool_state(0)), false).unwrap();
    assert_eq!((r.accounts.user_token_in, r.accounts.user_token_out), (ata_x, ata_y));

    let sell_y = SwapParameters { lb_pair: key(1), amount_in: 5, swap_for_y: false };
    let r = resolve_swap(&sell_y, 1, &user, &ids(), Some(pool_state(0)), false).unwrap();
    assert_eq!((r.accounts.user_token_in, r.accounts.user_token_out), (ata_y, ata_x));
}

#[test]
fn fixed_accounts_order_and_payload() {
    let pool = key(1);
    let user = key(2);
    let params = SwapParameters { lb_pair: pool, amount_in: 1_234, swap_for_y: true };
    let r = resolve_swap(&params, 987, &user, &ids(), Some(pool_state(140)), false).unwrap();
    let (authority, _) = Pubkey::find_program_address(&[b"__event_authority"], &dlmm_program());
    let a = r.accounts;
    let e = r.account_entries();
    let w = |k: Address| AccountEntry { pubkey: k, is_signer: false, is_writable: true };
    let ro = |k: Address| AccountEntry { pubkey: k, is_signer: false, is_writable: false };
    let fixed = vec![
        w(pool),
        w(key(11)),
        w(key(12)),
        ro(key(13)),
        ro(key(14)),
        ro(ids().token),
        ro(ids().token),
        AccountEntry { pubkey: user, is_signer: true, is_writable: false },
        w(a.user_token_in),
        w(a.user_token_out),
        w(key(15)),
        w(ids().dlmm),
        ro(addr(&authority)),
        ro(ids().dlmm),
    ];
    assert_eq!(e[..14].to_vec(), fixed);
    assert_eq!(e[14..].to_vec(), r.remaining_accounts);
    assert_eq!(derive_event_authority(&ids()), Some(addr(&authority)));
    assert_eq!(r.instruction.amount_in, 1_234);
    assert_eq!(r.instruction.min_amount_out, 987);
    assert_eq!(r.instruction.program_id, ids().dlmm);
    assert_eq!(COMPUTE_UNIT_LIMIT, 1_400_000);
}

#[test]
fn extreme_active_ids_still_derive() {
    let pool = key(1);
    for (active, swap_for_y, first) in [(i32::MIN, true, -30678338i64), (i32::MAX, false, 30678337i64)] {
        let params = SwapParameters { lb_pair: pool, amount_in: 1, swap_for_y };
        let r = resolve_swap(&params, 0, &key(2), &ids(), Some(pool_state(active)), false).unwrap();
        let step: i64 = if swap_for_y { -1 } else { 1 };
        let idx = [first, first + step, first + 2 * step];
        let want: Vec<Address> = idx.iter().map(|i| expected_bin_array(&pool, *i)).collect();
        let got: Vec<Address> = r.remaining_accounts.iter().map(|e| e.pubkey).collect();
        assert_eq!(got, want);
    }
}
