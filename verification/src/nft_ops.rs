use vstd::prelude::*;

use mpl_token_metadata::types::TokenDelegateRole;

use crate::metadata::{decode_metadata, get_is_metaplex_nft, get_is_pnft, is_metaplex_nft, is_pnft, spec_metadata_facts};

verus! {

/// The role of a delegate that a token record names.
#[derive(Debug, Clone, Copy, PartialEq, Eq, Structural)]
pub enum DelegateRole {
    Sale,
    Transfer,
    Utility,
    Staking,
    Standard,
    LockedTransfer,
    Migration,
}

/// The kinds of delegate that a revoke removes.
#[derive(Debug, Clone, Copy, PartialEq, Eq, Structural)]
pub enum LocalRevokeArgs {
    CollectionV1,
    SaleV1,
    TransferV1,
    UtilityV1,
    StakingV1,
    StandardV1,
    LockedTransferV1,
    ProgrammableConfigV1,
    MigrationV1,
}

impl LocalRevokeArgs {
    /// The revoke that removes a delegate of the given role.
    pub open spec fn spec_from_role(role: DelegateRole) -> LocalRevokeArgs {
        match role {
            DelegateRole::Sale => LocalRevokeArgs::SaleV1,
            DelegateRole::Transfer => LocalRevokeArgs::TransferV1,
            DelegateRole::Utility => LocalRevokeArgs::UtilityV1,
            DelegateRole::Staking => LocalRevokeArgs::StakingV1,
            DelegateRole::Standard => LocalRevokeArgs::StandardV1,
            DelegateRole::LockedTransfer => LocalRevokeArgs::LockedTransferV1,
            DelegateRole::Migration => LocalRevokeArgs::MigrationV1,
        }
    }

    /// The revoke that removes a delegate of the given role.
    pub fn from_role(role: DelegateRole) -> (r: LocalRevokeArgs)
        ensures
            r == Self::spec_from_role(role),
    {
        match role {
            DelegateRole::Sale => LocalRevokeArgs::SaleV1,
            DelegateRole::Transfer => LocalRevokeArgs::TransferV1,
            DelegateRole::Utility => LocalRevokeArgs::UtilityV1,
            DelegateRole::Staking => LocalRevokeArgs::StakingV1,
            DelegateRole::Standard => LocalRevokeArgs::StandardV1,
            DelegateRole::LockedTransfer => LocalRevokeArgs::LockedTransferV1,
            DelegateRole::Migration => LocalRevokeArgs::MigrationV1,
        }
    }

    /// The position of the same kind in Metaplex's `RevokeArgs`.
    pub open spec fn spec_revoke_args_index(self) -> u8 {
        match self {
            LocalRevokeArgs::CollectionV1 => 0,
            LocalRevokeArgs::SaleV1 => 1,
            LocalRevokeArgs::TransferV1 => 2,
            LocalRevokeArgs::UtilityV1 => 4,
            LocalRevokeArgs::StakingV1 => 5,
            LocalRevokeArgs::StandardV1 => 6,
            LocalRevokeArgs::LockedTransferV1 => 7,
            LocalRevokeArgs::ProgrammableConfigV1 => 8,
            LocalRevokeArgs::MigrationV1 => 9,
        }
    }

    /// The position of the same kind in Metaplex's `RevokeArgs`.
    pub fn revoke_args_index(self) -> (r: u8)
        ensures
            r == self.spec_revoke_args_index(),
    {
        match self {
            LocalRevokeArgs::CollectionV1 => 0,
            LocalRevokeArgs::SaleV1 => 1,
            LocalRevokeArgs::TransferV1 => 2,
            LocalRevokeArgs::UtilityV1 => 4,
            LocalRevokeArgs::StakingV1 => 5,
            LocalRevokeArgs::StandardV1 => 6,
            LocalRevokeArgs::LockedTransferV1 => 7,
            LocalRevokeArgs::ProgrammableConfigV1 => 8,
            LocalRevokeArgs::MigrationV1 => 9,
        }
    }
}

/// Whether the metadata account holds a programmable NFT.
pub open spec fn data_is_pnft(data: Seq<u8>) -> bool {
    match spec_metadata_facts(data) {
        Some(m) => is_pnft(m),
        None => false,
    }
}

fn metadata_is_pnft(data: &[u8]) -> (r: bool)
    ensures
        r == data_is_pnft(data@),
{
    match decode_metadata(data) {
        Some(m) => get_is_pnft(&m),
        None => false,
    }
}

/// How an NFT is transferred.
#[derive(Debug, Clone, Copy, PartialEq, Eq, Structural)]
pub enum TransferAction {
    /// a Metaplex transfer (programmable NFTs)
    MetaplexTransfer,
    /// a plain token transfer
    TokenTransfer,
}

/// How an NFT whose metadata account holds `metadata_data` is transferred:
/// through Metaplex when it decodes as a programmable NFT, by the token
/// program otherwise.
pub fn transfer_nft(metadata_data: &[u8]) -> (r: TransferAction)
    ensures
        r == (if data_is_pnft(metadata_data@) { TransferAction::MetaplexTransfer } else { TransferAction::TokenTransfer }),
{
    if metadata_is_pnft(metadata_data) {
        TransferAction::MetaplexTransfer
    } else {
        TransferAction::TokenTransfer
    }
}

/// A step of delegating an NFT.
#[derive(Debug, Clone, Copy, PartialEq, Eq, Structural)]
pub enum DelegateStep {
    /// a plain token approval
    Approve,
    /// a Metaplex revoke of the delegate already set
    MetaplexRevoke(LocalRevokeArgs),
    /// a Metaplex delegate
    MetaplexDelegate,
}

/// The role of the delegate that a token record account holding `data`
/// names: `None` where it does not decode or names no role.
pub uninterp spec fn spec_token_record_role(data: Seq<u8>) -> Option<DelegateRole>;

/// Calls `TokenRecord::from_bytes` of `mpl_token_metadata` and keeps the
/// delegate role it records, as a `DelegateRole`. Trusted: the result is the
/// name `spec_token_record_role` of the bytes. Which bytes decode, and to
/// what, is not stated.
#[verifier::external_body]
pub(crate) fn token_record_delegate_role(data: &[u8]) -> (r: Option<DelegateRole>)
    ensures
        r == spec_token_record_role(data@),
{
    let record = mpl_token_metadata::accounts::TokenRecord::from_bytes(data).ok()?;
    record.delegate_role.map(|role| match role {
        TokenDelegateRole::Sale => DelegateRole::Sale,
        TokenDelegateRole::Transfer => DelegateRole::Transfer,
        TokenDelegateRole::Utility => DelegateRole::Utility,
        TokenDelegateRole::Staking => DelegateRole::Staking,
        TokenDelegateRole::Standard => DelegateRole::Standard,
        TokenDelegateRole::LockedTransfer => DelegateRole::LockedTransfer,
        TokenDelegateRole::Migration => DelegateRole::Migration,
    })
}

/// The role of the delegate already set, by the token record account if one
/// came.
pub open spec fn existing_role(token_record: Option<Seq<u8>>) -> Option<DelegateRole> {
    match token_record {
        Some(d) => spec_token_record_role(d),
        None => None,
    }
}

/// The bytes of an optional account.
pub open spec fn opt_bytes(data: Option<&[u8]>) -> Option<Seq<u8>> {
    match data {
        Some(d) => Some(d@),
        None => None,
    }
}

/// The steps of delegating an NFT, given its metadata account, its token
/// record account (if one came), and whether the existing delegate's
/// accounts came.
pub open spec fn delegate_steps(
    data: Seq<u8>,
    token_record: Option<Seq<u8>>,
    has_existing_delegate_params: bool,
) -> Seq<DelegateStep> {
    if !is_metaplex_nft(data) {
        seq![DelegateStep::Approve]
    } else {
        let first = if existing_role(token_record) is Some && has_existing_delegate_params {
            seq![DelegateStep::MetaplexRevoke(LocalRevokeArgs::spec_from_role(existing_role(token_record)->Some_0))]
        } else {
            Seq::empty()
        };
        first + if data_is_pnft(data) {
            seq![DelegateStep::MetaplexDelegate]
        } else {
            seq![DelegateStep::Approve]
        }
    }
}

/// Delegates an NFT: a plain approval unless it is a Metaplex NFT; for one,
/// first a revoke of a delegate already set (when the token record names
/// one and the existing delegate's accounts came), then a Metaplex delegate
/// for a programmable NFT or a plain approval.
pub fn delegate_nft(
    metadata_data: &[u8],
    token_record_data: Option<&[u8]>,
    has_existing_delegate_params: bool,
) -> (r: Vec<DelegateStep>)
    ensures
        r@ == delegate_steps(metadata_data@, opt_bytes(token_record_data), has_existing_delegate_params),
{
    let mut steps: Vec<DelegateStep> = Vec::new();
    if !get_is_metaplex_nft(metadata_data) {
        steps.push(DelegateStep::Approve);
        assert(steps@ =~= seq![DelegateStep::Approve]);
        return steps;
    }
    let pnft = metadata_is_pnft(metadata_data);
    match token_record_data {
        Some(d) => {
            match token_record_delegate_role(d) {
                Some(role) => {
                    if has_existing_delegate_params {
                        steps.push(DelegateStep::MetaplexRevoke(LocalRevokeArgs::from_role(role)));
                    }
                },
                None => {},
            }
        },
        None => {},
    }
    if pnft {
        steps.push(DelegateStep::MetaplexDelegate);
    } else {
        steps.push(DelegateStep::Approve);
    }
    assert(steps@ =~= delegate_steps(metadata_data@, opt_bytes(token_record_data), has_existing_delegate_params));
    steps
}

/// How an NFT is frozen.
#[derive(Debug, Clone, Copy, PartialEq, Eq, Structural)]
pub enum FreezeAction {
    /// a plain token freeze
    TokenFreeze,
    /// a Metaplex lock (programmable NFTs)
    MetaplexLock,
    /// a Metaplex freeze of a delegated account
    MetaplexFreeze,
}

/// How an NFT whose metadata account holds `metadata_data` is frozen: a plain
/// freeze unless it is a Metaplex NFT; a lock for a programmable one; a
/// Metaplex freeze otherwise.
pub fn freeze_nft(metadata_data: &[u8]) -> (r: FreezeAction)
    ensures
        r == (if !is_metaplex_nft(metadata_data@) {
            FreezeAction::TokenFreeze
        } else if data_is_pnft(metadata_data@) {
            FreezeAction::MetaplexLock
        } else {
            FreezeAction::MetaplexFreeze
        }),
{
    if !get_is_metaplex_nft(metadata_data) {
        return FreezeAction::TokenFreeze;
    }
    if metadata_is_pnft(metadata_data) {
        FreezeAction::MetaplexLock
    } else {
        FreezeAction::MetaplexFreeze
    }
}

/// How an NFT is thawed.
#[derive(Debug, Clone, Copy, PartialEq, Eq, Structural)]
pub enum ThawAction {
    /// nothing to do
    Nothing,
    /// a Metaplex unlock (programmable NFTs)
    MetaplexUnlock,
    /// a Metaplex thaw of a delegated account
    MetaplexThaw,
}

/// How an NFT whose metadata account holds `metadata_data` is thawed: not at
/// all unless it is a Metaplex NFT; an unlock for a programmable one; a
/// Metaplex thaw otherwise.
pub fn thaw_nft(metadata_data: &[u8]) -> (r: ThawAction)
    ensures
        r == (if !is_metaplex_nft(metadata_data@) {
            ThawAction::Nothing
        } else if data_is_pnft(metadata_data@) {
            ThawAction::MetaplexUnlock
        } else {
            ThawAction::MetaplexThaw
        }),
{
    if !get_is_metaplex_nft(metadata_data) {
        return ThawAction::Nothing;
    }
    if metadata_is_pnft(metadata_data) {
        ThawAction::MetaplexUnlock
    } else {
        ThawAction::MetaplexThaw
    }
}

/// How a delegate is revoked.
#[derive(Debug, Clone, Copy, PartialEq, Eq, Structural)]
pub enum RevokeAction {
    /// a plain token revoke
    TokenRevoke,
    /// a Metaplex revoke (programmable NFTs)
    MetaplexRevoke,
}

/// How the delegate of an NFT whose metadata account holds `metadata_data` is
/// revoked: through Metaplex for a programmable Metaplex NFT, by the token
/// program otherwise.
pub fn revoke_nft(metadata_data: &[u8]) -> (r: RevokeAction)
    ensures
        r == (if is_metaplex_nft(metadata_data@) && data_is_pnft(metadata_data@) {
            RevokeAction::MetaplexRevoke
        } else {
            RevokeAction::TokenRevoke
        }),
{
    if !get_is_metaplex_nft(metadata_data) {
        return RevokeAction::TokenRevoke;
    }
    if metadata_is_pnft(metadata_data) {
        RevokeAction::MetaplexRevoke
    } else {
        RevokeAction::TokenRevoke
    }
}

/// Thaws an NFT and, where `revoke`, revokes its delegate after.
pub fn thaw_and_revoke(metadata_data: &[u8], revoke: bool) -> (r: (ThawAction, Option<RevokeAction>))
    ensures
        r.0 == (if !is_metaplex_nft(metadata_data@) {
            ThawAction::Nothing
        } else if data_is_pnft(metadata_data@) {
            ThawAction::MetaplexUnlock
        } else {
            ThawAction::MetaplexThaw
        }),
        revoke <==> r.1 is Some,
        r.1 matches Some(a) ==> a == (if is_metaplex_nft(metadata_data@) && data_is_pnft(metadata_data@) {
            RevokeAction::MetaplexRevoke
        } else {
            RevokeAction::TokenRevoke
        }),
{
    let thaw = thaw_nft(metadata_data);
    if revoke {
        (thaw, Some(revoke_nft(metadata_data)))
    } else {
        (thaw, None)
    }
}

/// Delegates an NFT, then freezes it.
pub fn delegate_and_freeze(
    metadata_data: &[u8],
    token_record_data: Option<&[u8]>,
    has_existing_delegate_params: bool,
) -> (r: (Vec<DelegateStep>, FreezeAction))
    ensures
        r.0@ == delegate_steps(metadata_data@, opt_bytes(token_record_data), has_existing_delegate_params),
        r.1 == (if !is_metaplex_nft(metadata_data@) {
            FreezeAction::TokenFreeze
        } else if data_is_pnft(metadata_data@) {
            FreezeAction::MetaplexLock
        } else {
            FreezeAction::MetaplexFreeze
        }),
{
    let steps = delegate_nft(metadata_data, token_record_data, has_existing_delegate_params);
    (steps, freeze_nft(metadata_data))
}

} // verus!
