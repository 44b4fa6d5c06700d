use vstd::prelude::*;

use crate::errors::MarketplaceError;
use solana_program::program_error::ProgramError;
use spl_token_2022::extension::transfer_hook::TransferHookAccount;
use spl_token_2022::extension::{BaseStateWithExtensions, StateWithExtensions};
use spl_token_2022::state::Account;
use crate::keys::{keys_equal, Pubkey};
use crate::metadata::{get_mint_metadata, pairs_view, spec_mint_additional_metadata, CreatorWithShare};
use crate::royalties::{payouts_are, transfer_hook_outcome, transfer_hook_payouts, Payout};

verus! {

/// The controls of an editions deployment: who may manage it.
#[derive(Debug, Clone, Copy)]
pub struct EditionsControls {
    pub creator: Pubkey,
}

/// Hands the controls of an editions deployment to `new_owner`; refused
/// unless the signer is the current creator.
pub fn transfer_ownership(controls: &mut EditionsControls, current_owner: &Pubkey, new_owner: &Pubkey) -> (r: Result<(), MarketplaceError>)
    ensures
        old(controls).creator@ == current_owner@ <==> r is Ok,
        r is Ok ==> final(controls).creator == *new_owner,
        r is Err ==> (r matches Err(MarketplaceError::ConstraintViolated)) && *final(controls) == *old(controls),
{
    if !keys_equal(&controls.creator, current_owner) {
        return Err(MarketplaceError::ConstraintViolated);
    }
    controls.creator = *new_owner;
    Ok(())
}

/// How many lamports an account of `lamports` lacks to reach the rent-exempt
/// `minimum_balance` (0 when it has enough); the payer sends that many when
/// it is above 0.
pub fn lamports_to_minimum_balance(minimum_balance: u64, lamports: u64) -> (extra: u64)
    ensures
        extra == (if minimum_balance > lamports { minimum_balance - lamports } else { 0 }),
        lamports + extra >= minimum_balance,
{
    minimum_balance.saturating_sub(lamports)
}

/// The error a transfer hook reports when it is not called during a transfer.
#[derive(Debug, Clone, Copy, PartialEq, Eq, Structural)]
pub enum TransferError {
    IsNotCurrentlyTransferring,
}

/// Checks that the source token account is in the middle of a transfer.
pub fn assert_is_transferring(transferring: bool) -> (r: Result<(), TransferError>)
    ensures
        transferring <==> r is Ok,
{
    if !transferring {
        return Err(TransferError::IsNotCurrentlyTransferring);
    }
    Ok(())
}

/// The royalty each creator receives on a transfer of `amount` at
/// `royalty_basis_points`: its share, in percent, of `amount * bp / 10000`.
pub open spec fn creator_royalties(amount: int, bp: int, creators: Seq<CreatorWithShare>) -> Seq<int> {
    Seq::new(creators.len(), |i: int| (amount * bp / 10000) * creators[i].share / 100)
}

/// The royalty each creator receives on a transfer of `amount`: its share,
/// in percent, of `amount * royalty_basis_points / 10000`, in order.
pub fn creator_royalty_amounts(amount: u64, royalty_basis_points: u16, creators: &Vec<CreatorWithShare>) -> (r: Vec<u64>)
    requires
        amount * royalty_basis_points <= u64::MAX,
        forall|i: int| 0 <= i < creators@.len() ==> (amount * royalty_basis_points / 10000) * (#[trigger] creators@[i]).share <= u64::MAX,
    ensures
        r@.map_values(|a: u64| a as int) == creator_royalties(amount as int, royalty_basis_points as int, creators@),
{
    let total: u64 = amount * (royalty_basis_points as u64) / 10000;
    let mut out: Vec<u64> = Vec::new();
    let mut i: usize = 0;
    while i < creators.len()
        invariant
            0 <= i <= creators.len(),
            total == amount * royalty_basis_points / 10000,
            forall|j: int| 0 <= j < creators@.len() ==> total * (#[trigger] creators@[j]).share <= u64::MAX,
            out@.len() == i,
            forall|j: int| 0 <= j < i ==> out@[j] == total * (#[trigger] creators@[j]).share / 100,
        decreases creators.len() - i,
    {
        let share = creators[i].share as u64;
        assert(total * creators@[i as int].share <= u64::MAX);
        out.push(total * share / 100);
        i = i + 1;
    }
    assert(out@.map_values(|a: u64| a as int) =~= creator_royalties(amount as int, royalty_basis_points as int, creators@));
    out
}

/// Whether the token account holding `data` is in the middle of a transfer,
/// as its transfer-hook extension records it: `None` where the account does
/// not unpack or has no such extension.
pub uninterp spec fn spec_source_transferring(data: Seq<u8>) -> Option<bool>;

/// Calls `StateWithExtensions::<Account>::unpack` of `spl_token_2022`, then
/// `get_extension::<TransferHookAccount>`, and keeps its `transferring`
/// flag. Trusted: success and the flag are the name `spec_source_transferring`
/// of the bytes. Which error comes back is not stated.
#[verifier::external_body]
fn source_is_transferring(data: &[u8]) -> (r: Result<bool, ProgramError>)
    ensures
        match spec_source_transferring(data@) {
            Some(b) => r matches Ok(x) && x == b,
            None => r is Err,
        },
{
    let account = StateWithExtensions::<Account>::unpack(data)?;
    let extension = account.get_extension::<TransferHookAccount>()?;
    Ok(bool::from(extension.transferring))
}

/// Why the transfer hook refuses a transfer.
#[derive(Debug)]
pub enum TransferHookError {
    /// it was not called during a transfer
    Transfer(TransferError),
    /// the source token account could not be read
    Program(ProgramError),
}

/// Checks that the source token account, holding `source_data`, is in the
/// middle of a transfer.
pub fn check_source_transferring(source_data: &[u8]) -> (r: Result<(), TransferHookError>)
    ensures
        match spec_source_transferring(source_data@) {
            None => r matches Err(TransferHookError::Program(_)),
            Some(b) => if b {
                r is Ok
            } else {
                r matches Err(TransferHookError::Transfer(TransferError::IsNotCurrentlyTransferring))
            },
        },
{
    let transferring = match source_is_transferring(source_data) {
        Ok(b) => b,
        Err(e) => return Err(TransferHookError::Program(e)),
    };
    match assert_is_transferring(transferring) {
        Ok(()) => Ok(()),
        Err(e) => Err(TransferHookError::Transfer(e)),
    }
}

/// Whether computing the creators' royalties on a transfer of `amount` at
/// `bp` basis points overflows a `u64`.
pub open spec fn creator_royalties_overflow(amount: int, bp: int, creators: Seq<CreatorWithShare>) -> bool {
    amount * bp > u64::MAX || exists|i: int| 0 <= i < creators.len() && (amount * bp / 10000) * (#[trigger] creators[i]).share > u64::MAX
}

/// Handles a transfer of `amount` tokens through the hook: refused unless the
/// source token account (holding `source_data`) is in the middle of a
/// transfer; then the royalty each creator receives (see
/// `creator_royalties`), in order. `None` where the program aborts: an
/// amount overflows a `u64`.
pub fn handle_transfer_hook(
    amount: u64,
    source_data: &[u8],
    royalty_basis_points: u16,
    creators: &Vec<CreatorWithShare>,
) -> (r: Option<Result<Vec<u64>, TransferHookError>>)
    ensures
        match spec_source_transferring(source_data@) {
            None => r matches Some(Err(TransferHookError::Program(_))),
            Some(false) => r matches Some(Err(TransferHookError::Transfer(TransferError::IsNotCurrentlyTransferring))),
            Some(true) => if creator_royalties_overflow(amount as int, royalty_basis_points as int, creators@) {
                r is None
            } else {
                r matches Some(Ok(v))
                    && v@.map_values(|a: u64| a as int) == creator_royalties(amount as int, royalty_basis_points as int, creators@)
            },
        },
{
    let checked = check_source_transferring(source_data);
    match checked {
        Ok(()) => {},
        Err(e) => return Some(Err(e)),
    }
    assert(spec_source_transferring(source_data@) == Some(true));
    let total: u64 = match amount.checked_mul(royalty_basis_points as u64) {
        Some(x) => x / 10000,
        None => return None,
    };
    let mut i: usize = 0;
    while i < creators.len()
        invariant
            0 <= i <= creators.len(),
            spec_source_transferring(source_data@) == Some(true),
            amount * royalty_basis_points <= u64::MAX,
            total == amount * royalty_basis_points / 10000,
            forall|j: int| 0 <= j < i ==> total * (#[trigger] creators@[j]).share <= u64::MAX,
        decreases creators.len() - i,
    {
        if total.checked_mul(creators[i].share as u64).is_none() {
            assert(total * creators@[i as int].share > u64::MAX);
            assert(creator_royalties_overflow(amount as int, royalty_basis_points as int, creators@));
            return None;
        }
        i = i + 1;
    }
    assert(!creator_royalties_overflow(amount as int, royalty_basis_points as int, creators@));
    Some(Ok(creator_royalty_amounts(amount, royalty_basis_points, creators)))
}

/// Processes a transfer of `amount` tokens of the mint whose account holds
/// `mint_data`: the payouts of royalties that the mint's metadata names (see
/// `transfer_hook_payouts`). Metadata that cannot be read is refused; `None`
/// where the program aborts.
pub fn process_transfer_hook(amount: u64, mint_data: &[u8]) -> (r: Option<Result<Vec<Payout>, MarketplaceError>>)
    ensures
        match spec_mint_additional_metadata(mint_data@) {
            None => r matches Some(Err(MarketplaceError::Program(_))),
            Some(p) => match transfer_hook_outcome(amount as int, p) {
                None => r is None,
                Some(s) => r matches Some(Ok(v)) && payouts_are(v@, s),
            },
        },
{
    let pairs = match get_mint_metadata(mint_data) {
        Ok(p) => p,
        Err(e) => return Some(Err(MarketplaceError::Program(e))),
    };
    match transfer_hook_payouts(amount, &pairs) {
        Some(v) => Some(Ok(v)),
        None => None,
    }
}

} // verus!
