use vstd::prelude::*;
use crate::errors::AgioError;
use crate::state::AccountId;

verus! {

/// A token custody account: holds `balance` units of the asset `mint` on
/// behalf of `owner`.
#[derive(Clone, Copy, Debug, PartialEq, Eq, Structural)]
pub struct Vault {
    pub owner: AccountId,
    pub mint: AccountId,
    pub balance: u64,
}

/// Domain tag that keeps derived escrow authorities apart from the key they
/// are derived from.
pub const AUTHORITY_DOMAIN: u64 = 0x8000_0000_0000_0001;

/// The derived signing authority over a loan's two escrow vaults, computed
/// from the loan's stable key. No private key exists for this identity:
/// re-deriving it from the key at transfer time is itself the proof of
/// authorization that `transfer_as_escrow` accepts.
pub open spec fn loan_authority(loan_key: AccountId) -> AccountId {
    AccountId { value: loan_key.value ^ AUTHORITY_DOMAIN }
}

/// Re-derives the escrow signing authority for the loan keyed by `loan_key`.
pub fn derive_loan_authority(loan_key: AccountId) -> (r: AccountId)
    ensures
        r == loan_authority(loan_key),
{
    AccountId { value: loan_key.value ^ AUTHORITY_DOMAIN }
}

/// What moving `amount` from `from` to `to` yields: the updated pair of
/// vaults, or the error that aborts the enclosing transition. A short source
/// balance is `InsufficientFunds`; a destination balance that would no longer
/// fit is `OverflowOrUnderflowOccurred`.
pub open spec fn transfer_outcome(from: Vault, to: Vault, amount: u64) -> Result<(Vault, Vault), AgioError> {
    if from.balance < amount {
        Err(AgioError::InsufficientFunds)
    } else if to.balance + amount > u64::MAX {
        Err(AgioError::OverflowOrUnderflowOccurred)
    } else {
        Ok((
            Vault { owner: from.owner, mint: from.mint, balance: (from.balance - amount) as u64 },
            Vault { owner: to.owner, mint: to.mint, balance: (to.balance + amount) as u64 },
        ))
    }
}

/// Moves `amount` between two vaults of the same asset, authorized by the
/// signature of the source vault's owner. On any error both vaults are left
/// unchanged.
pub fn transfer_as_user(from: &mut Vault, owner_signer: &AccountId, to: &mut Vault, amount: u64) -> (r: Result<(), AgioError>)
    requires
        old(from).owner == *owner_signer,
        old(from).mint == old(to).mint,
    ensures
        (match transfer_outcome(*old(from), *old(to), amount) {
            Ok(p) => r is Ok && *final(from) == p.0 && *final(to) == p.1,
            Err(e) => r == Err::<(), AgioError>(e) && *final(from) == *old(from) && *final(to) == *old(to),
        }),
{
    if from.balance < amount {
        return Err(AgioError::InsufficientFunds);
    }
    if amount > u64::MAX - to.balance {
        return Err(AgioError::OverflowOrUnderflowOccurred);
    }
    from.balance = from.balance - amount;
    to.balance = to.balance + amount;
    Ok(())
}

/// Moves `amount` out of an escrow vault of the loan keyed by `loan_key`,
/// authorized by re-deriving the loan's signing authority from that key: the
/// derivation must match the vault's owner, which is the whole proof — no
/// private key is involved. On any error both vaults are left unchanged.
pub fn transfer_as_escrow(from: &mut Vault, to: &mut Vault, amount: u64, loan_key: AccountId) -> (r: Result<(), AgioError>)
    requires
        old(from).owner == loan_authority(loan_key),
        old(from).mint == old(to).mint,
    ensures
        (match transfer_outcome(*old(from), *old(to), amount) {
            Ok(p) => r is Ok && *final(from) == p.0 && *final(to) == p.1,
            Err(e) => r == Err::<(), AgioError>(e) && *final(from) == *old(from) && *final(to) == *old(to),
        }),
{
    let authority = derive_loan_authority(loan_key);
    transfer_as_user(from, &authority, to, amount)
}

/// Idempotent lazy vault creation for an `(owner, mint)` pair: hands an
/// existing vault back unchanged, and a fresh empty vault where none exists
/// yet.
pub fn ensure_vault(existing: Option<Vault>, owner: AccountId, mint: AccountId) -> (v: Vault)
    requires
        (existing matches Some(w) ==> w.owner == owner && w.mint == mint),
    ensures
        v.owner == owner,
        v.mint == mint,
        (existing matches Some(w) ==> v == w),
        existing is None ==> v.balance == 0,
{
    match existing {
        Some(w) => w,
        None => Vault { owner: owner, mint: mint, balance: 0 },
    }
}

} // verus!
