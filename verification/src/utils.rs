use vstd::prelude::*;

use crate::errors::AlonsBoxError;
use crate::state::{Vault, Wallet};

verus! {

/// Moves `amount` from the custodial vault to a recipient wallet.
///
/// A zero-amount call is a no-op that succeeds trivially. A non-zero call
/// either updates both balances together or fails without touching either
/// side; the closing operations pre-check their whole payout so that no
/// call of theirs can fail halfway through a split.
pub fn transfer_from_vault(vault: &mut Vault, to: &mut Wallet, amount: u64) -> (r: Result<
    (),
    AlonsBoxError,
>)
    ensures
        r is Ok <==> old(vault).balance >= amount && old(to).balance + amount <= u64::MAX,
        r is Ok ==> final(vault).balance == old(vault).balance - amount && final(to).balance == old(
            to,
        ).balance + amount,
        r is Err ==> r == Err::<(), AlonsBoxError>(AlonsBoxError::MathOverflow) && *final(vault)
            == *old(vault) && *final(to) == *old(to),
        final(to).address == old(to).address,
{
    if amount == 0 {
        return Ok(());
    }
    if vault.balance < amount {
        return Err(AlonsBoxError::MathOverflow);
    }
    if to.balance > u64::MAX - amount {
        return Err(AlonsBoxError::MathOverflow);
    }
    vault.balance = vault.balance - amount;
    to.balance = to.balance + amount;
    Ok(())
}

} // verus!
