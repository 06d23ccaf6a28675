//! The account list and payload of a swap instruction.

use crate::address::Address;
use vstd::prelude::*;

verus! {

/// One account handed to the program, with its access flags.
#[derive(Clone, Copy, Debug, PartialEq, Eq, Hash)]
pub struct AccountEntry {
    pub pubkey: Address,
    pub is_signer: bool,
    pub is_writable: bool,
}

pub open spec fn entry(pubkey: Address, is_signer: bool, is_writable: bool) -> AccountEntry {
    AccountEntry { pubkey, is_signer, is_writable }
}

/// A writable account that does not sign.
pub open spec fn writable(a: Address) -> AccountEntry {
    entry(a, false, true)
}

/// A read-only account that does not sign.
pub open spec fn readonly(a: Address) -> AccountEntry {
    entry(a, false, false)
}

/// The entry of an account that may be absent: none at all when it is.
pub open spec fn optional_entry(a: Option<Address>, is_writable: bool) -> Seq<AccountEntry> {
    match a {
        Some(x) => seq![entry(x, false, is_writable)],
        None => Seq::empty(),
    }
}

fn push_entry(v: &mut Vec<AccountEntry>, pubkey: Address, is_signer: bool, is_writable: bool)
    ensures
        final(v)@ == old(v)@.push(entry(pubkey, is_signer, is_writable)),
{
    v.push(AccountEntry { pubkey, is_signer, is_writable });
}

/// The fixed accounts of a swap, in the program's order.
#[derive(Clone, Copy, Debug, PartialEq, Eq, Hash)]
pub struct SwapAccounts {
    pub lb_pair: Address,
    pub bin_array_bitmap_extension: Option<Address>,
    pub reserve_x: Address,
    pub reserve_y: Address,
    pub token_x_mint: Address,
    pub token_y_mint: Address,
    pub token_x_program: Address,
    pub token_y_program: Address,
    pub user: Address,
    pub user_token_in: Address,
    pub user_token_out: Address,
    pub oracle: Address,
    pub host_fee_in: Option<Address>,
    pub event_authority: Address,
    pub program: Address,
}

/// The fixed accounts as entries: pool, bitmap extension if present,
/// reserves, mints, token programs, the signing user, the user's token
/// accounts, oracle, host-fee account if present, event authority, program.
pub open spec fn fixed_entries(s: SwapAccounts) -> Seq<AccountEntry> {
    seq![writable(s.lb_pair)] + optional_entry(s.bin_array_bitmap_extension, false) + seq![
        writable(s.reserve_x),
        writable(s.reserve_y),
        readonly(s.token_x_mint),
        readonly(s.token_y_mint),
        readonly(s.token_x_program),
        readonly(s.token_y_program),
        entry(s.user, true, false),
        writable(s.user_token_in),
        writable(s.user_token_out),
        writable(s.oracle),
    ] + optional_entry(s.host_fee_in, true) + seq![
        readonly(s.event_authority),
        readonly(s.program),
    ]
}

impl SwapAccounts {
    /// The fixed accounts as an ordered list of entries.
    pub fn to_account_entries(&self) -> (r: Vec<AccountEntry>)
        ensures
            r@ == fixed_entries(*self),
    {
        let mut v: Vec<AccountEntry> = Vec::new();
        push_entry(&mut v, self.lb_pair, false, true);
        let ghost head = v@;
        if let Some(x) = self.bin_array_bitmap_extension {
            push_entry(&mut v, x, false, false);
        }
        assert(v@ =~= head + optional_entry(self.bin_array_bitmap_extension, false));
        push_entry(&mut v, self.reserve_x, false, true);
        push_entry(&mut v, self.reserve_y, false, true);
        push_entry(&mut v, self.token_x_mint, false, false);
        push_entry(&mut v, self.token_y_mint, false, false);
        push_entry(&mut v, self.token_x_program, false, false);
        push_entry(&mut v, self.token_y_program, false, false);
        push_entry(&mut v, self.user, true, false);
        push_entry(&mut v, self.user_token_in, false, true);
        push_entry(&mut v, self.user_token_out, false, true);
        push_entry(&mut v, self.oracle, false, true);
        let ghost middle = v@;
        if let Some(x) = self.host_fee_in {
            push_entry(&mut v, x, false, true);
        }
        assert(v@ =~= middle + optional_entry(self.host_fee_in, true));
        push_entry(&mut v, self.event_authority, false, false);
        push_entry(&mut v, self.program, false, false);
        assert(v@ =~= fixed_entries(*self));
        v
    }
}

/// The instruction payload, with the program it is addressed to.
#[derive(Clone, Copy, Debug, PartialEq, Eq, Hash)]
pub struct SwapInstruction {
    pub program_id: Address,
    pub amount_in: u64,
    pub min_amount_out: u64,
}

/// Every account of the instruction: the fixed set, then the bin arrays.
pub open spec fn all_entries(accounts: SwapAccounts, remaining: Seq<AccountEntry>) -> Seq<AccountEntry> {
    fixed_entries(accounts) + remaining
}

/// A resolved swap: the fixed accounts, the bin arrays that follow them,
/// and the payload.
#[derive(Clone, Debug, PartialEq, Eq)]
pub struct ResolvedSwap {
    pub accounts: SwapAccounts,
    pub remaining_accounts: Vec<AccountEntry>,
    pub instruction: SwapInstruction,
}

impl ResolvedSwap {
    /// The complete ordered account list.
    pub fn account_entries(&self) -> (r: Vec<AccountEntry>)
        ensures
            r@ == all_entries(self.accounts, self.remaining_accounts@),
    {
        let mut v = self.accounts.to_account_entries();
        let ghost fixed = v@;
        let mut i: usize = 0;
        while i < self.remaining_accounts.len()
            invariant
                i <= self.remaining_accounts@.len(),
                fixed == fixed_entries(self.accounts),
                v@ == fixed + self.remaining_accounts@.subrange(0, i as int),
            decreases self.remaining_accounts@.len() - i,
        {
            v.push(self.remaining_accounts[i]);
            i = i + 1;
            assert(v@ =~= fixed + self.remaining_accounts@.subrange(0, i as int));
        }
        assert(self.remaining_accounts@.subrange(0, i as int) =~= self.remaining_accounts@);
        v
    }
}

} // verus!
