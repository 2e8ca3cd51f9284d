//! The shared settlement primitives.
//!
//! Every variant engine settles through the same small set of balance
//! movements: an asset transfer between token accounts, a native-currency
//! payment between parties, funding or debiting a vault's native balance,
//! and the final release of a vault to whichever party is owed its
//! residue. Each operation validates all of its preconditions before the
//! first movement, so a call that uses these primitives either performs
//! every leg or performs none.

use vstd::prelude::*;
use crate::ledger::{PartyAccount, TokenAccount};

verus! {

/// Move `amount` units of the asset from one token account to another.
/// The caller has already admitted the movement: the source covers it and
/// the destination cannot overflow.
pub fn move_tokens(from: &mut TokenAccount, to: &mut TokenAccount, amount: u64)
    requires
        amount <= old(from).amount,
        old(to).amount + amount <= u64::MAX,
    ensures
        *final(from) == (TokenAccount { amount: (old(from).amount - amount) as u64, ..*old(from) }),
        *final(to) == (TokenAccount { amount: (old(to).amount + amount) as u64, ..*old(to) }),
{
    from.amount = from.amount - amount;
    to.amount = to.amount + amount;
}

/// Pay `amount` of native currency from one party to another.
pub fn pay_native(from: &mut PartyAccount, to: &mut PartyAccount, amount: u64)
    requires
        amount <= old(from).lamports,
        old(to).lamports + amount <= u64::MAX,
    ensures
        *final(from) == (PartyAccount { lamports: (old(from).lamports - amount) as u64, ..*old(from) }),
        *final(to) == (PartyAccount { lamports: (old(to).lamports + amount) as u64, ..*old(to) }),
{
    from.lamports = from.lamports - amount;
    to.lamports = to.lamports + amount;
}

/// Fund a vault with native currency out of a party's balance: the
/// deposit path of the currency-funded variants, where the vault is
/// funded directly at its own holding address.
pub fn fund_vault_native(from: &mut PartyAccount, vault: &mut TokenAccount, amount: u64)
    requires
        amount <= old(from).lamports,
        old(vault).lamports + amount <= u64::MAX,
    ensures
        *final(from) == (PartyAccount { lamports: (old(from).lamports - amount) as u64, ..*old(from) }),
        *final(vault) == (TokenAccount { lamports: (old(vault).lamports + amount) as u64, ..*old(vault) }),
{
    from.lamports = from.lamports - amount;
    vault.lamports = vault.lamports + amount;
}

/// Debit `amount` of native currency from a vault's balance to a party:
/// the payout path of the currency-funded variants.
pub fn debit_vault_native(vault: &mut TokenAccount, to: &mut PartyAccount, amount: u64)
    requires
        amount <= old(vault).lamports,
        old(to).lamports + amount <= u64::MAX,
    ensures
        *final(vault) == (TokenAccount { lamports: (old(vault).lamports - amount) as u64, ..*old(vault) }),
        *final(to) == (PartyAccount { lamports: (old(to).lamports + amount) as u64, ..*old(to) }),
{
    vault.lamports = vault.lamports - amount;
    to.lamports = to.lamports + amount;
}

/// Release a vault on close: its entire residual native balance goes to
/// the designated destination, leaving the vault empty. The caller has
/// already drained the vault's asset balance.
pub fn release_vault(vault: &mut TokenAccount, destination: &mut PartyAccount)
    requires
        old(vault).amount == 0,
        old(destination).lamports + old(vault).lamports <= u64::MAX,
    ensures
        *final(vault) == (TokenAccount { lamports: 0, ..*old(vault) }),
        *final(destination) == (PartyAccount {
            lamports: (old(destination).lamports + old(vault).lamports) as u64,
            ..*old(destination)
        }),
{
    destination.lamports = destination.lamports + vault.lamports;
    vault.lamports = 0;
}

} // verus!
