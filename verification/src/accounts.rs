use vstd::prelude::*;

use crate::keys::{default_key, is_default_key, Pubkey};

verus! {

/// Metaplex's authorization data, carried through as it came.
#[verifier::external_type_specification]
#[verifier::external_body]
pub struct ExAuthorizationData(mpl_token_metadata::types::AuthorizationData);

/// Metaplex's revoke arguments, carried through as they came.
#[verifier::external_type_specification]
#[verifier::external_body]
pub struct ExRevokeArgs(mpl_token_metadata::types::RevokeArgs);

/// The position `i` of a list of `n` accounts, if the list is that long.
pub open spec fn slot(n: int, i: int) -> Option<usize> {
    if 0 <= i < n {
        Some(i as usize)
    } else {
        None
    }
}

/// The position `i` of a list of `n` accounts, if the list is that long.
pub fn get_slot(n: usize, i: usize) -> (r: Option<usize>)
    ensures
        r == slot(n as int, i as int),
{
    if i < n {
        Some(i)
    } else {
        None
    }
}

/// The accounts of a programmable NFT, by their position among the
/// remaining accounts of a request.
pub struct PnftParams {
    pub token_record: Option<usize>,
    pub authorization_rules: Option<usize>,
    pub authorization_rules_program: Option<usize>,
    pub authorization_data: Option<mpl_token_metadata::types::AuthorizationData>,
}

/// The accounts of a delegate that is already set, by position.
#[derive(Debug, Clone, Copy, PartialEq, Eq, Structural)]
pub struct ExistingDelegateParams {
    pub existing_delegate: usize,
    pub existing_delegate_record: usize,
}

/// The first three accounts, as far as there are any, as the pNFT accounts.
fn get_pnft_params(keys: &Vec<Pubkey>) -> (r: PnftParams)
    ensures
        r.token_record == slot(keys@.len() as int, 0),
        r.authorization_rules == slot(keys@.len() as int, 1),
        r.authorization_rules_program == slot(keys@.len() as int, 2),
        r.authorization_data is None,
{
    PnftParams {
        token_record: get_slot(keys.len(), 0),
        authorization_rules: get_slot(keys.len(), 1),
        authorization_rules_program: get_slot(keys.len(), 2),
        authorization_data: None,
    }
}

/// The pNFT accounts that a list of remaining accounts opens with: none when
/// the first is the default address, else the first three as far as there are
/// any.
pub open spec fn pnft_slots(keys: Seq<Pubkey>) -> (Option<usize>, Option<usize>, Option<usize>) {
    if keys[0]@ == default_key() {
        (None, None, None)
    } else {
        (slot(keys.len() as int, 0), slot(keys.len() as int, 1), slot(keys.len() as int, 2))
    }
}

/// The pNFT accounts of a request are the first three remaining accounts,
/// by position (as far as there are any): the token record, the rule set and
/// the rules program; none of them when the first is the default address.
pub proof fn lemma_pnft_accounts_are_the_first_three(keys: Seq<Pubkey>)
    requires
        keys.len() >= 1,
    ensures
        keys[0]@ == default_key() ==> pnft_slots(keys) == (None::<usize>, None::<usize>, None::<usize>),
        keys[0]@ != default_key() ==> pnft_slots(keys) == (
            Some(0usize),
            if keys.len() > 1 { Some(1usize) } else { None },
            if keys.len() > 2 { Some(2usize) } else { None },
        ),
{
}

fn parse_pnft_accounts(keys: &Vec<Pubkey>) -> (r: PnftParams)
    requires
        keys@.len() >= 1,
    ensures
        (r.token_record, r.authorization_rules, r.authorization_rules_program) == pnft_slots(keys@),
        r.authorization_data is None,
{
    if is_default_key(&keys[0]) {
        PnftParams {
            authorization_data: None,
            authorization_rules: None,
            authorization_rules_program: None,
            token_record: None,
        }
    } else {
        get_pnft_params(keys)
    }
}

/// The delegate record at `start`, unless it is the default address.
fn parse_delegate_record(keys: &Vec<Pubkey>, start: usize) -> (r: Option<usize>)
    requires
        start < keys@.len(),
    ensures
        r == (if keys@[start as int]@ == default_key() { None } else { Some(start) }),
{
    if is_default_key(&keys[start]) {
        None
    } else {
        Some(start)
    }
}

/// The existing delegate at `start` and its record after it, unless the first
/// is the default address.
fn parse_existing_delegate_accounts(keys: &Vec<Pubkey>, start: usize) -> (r: Option<ExistingDelegateParams>)
    requires
        start < keys@.len(),
        keys@[start as int]@ != default_key() ==> start + 1 < keys@.len(),
    ensures
        r == (if keys@[start as int]@ == default_key() {
            None
        } else {
            Some(ExistingDelegateParams { existing_delegate: start, existing_delegate_record: (start + 1) as usize })
        }),
{
    if is_default_key(&keys[start]) {
        None
    } else {
        assert(keys@.len() == keys.len());
        Some(ExistingDelegateParams { existing_delegate: start, existing_delegate_record: start + 1 })
    }
}

/// result of parsing remaining accounts
pub struct ParsedRemainingAccounts {
    /// params for pnft ix's
    pub pnft_params: PnftParams,
    /// delegate record if we're freezing/unfreezing
    pub delegate_record: Option<usize>,
    /// params for removing an existing delegate
    pub existing_delegate_params: Option<ExistingDelegateParams>,
    /// apply fee on listings
    pub fees_on: bool,
    /// the creator accounts are the remaining accounts from this position on
    /// (none when it is past the end)
    pub creator_accounts_start: usize,
}

/// Where the delegate record stands: after the three pNFT accounts and the
/// extra pNFT accounts.
pub open spec fn delegate_record_index(extra: Option<usize>) -> int {
    3 + match extra {
        Some(e) => e as int,
        None => 0,
    }
}

/// Whether the existing delegate is read: it may be there, and the list is
/// long enough to hold it.
pub open spec fn reads_existing_delegate(n: int, potential_existing_delegate: bool, extra: Option<usize>) -> bool {
    potential_existing_delegate && delegate_record_index(extra) + 1 < n
}

/// Whether parsing the remaining accounts stays defined: there is at least one
/// account, positions fit a `usize`, and a delegate that is read has its
/// record after it.
pub open spec fn remaining_accounts_parse_defined(keys: Seq<Pubkey>, potential_existing_delegate: bool, extra: Option<usize>) -> bool {
    &&& keys.len() >= 1
    &&& delegate_record_index(extra) + 5 <= usize::MAX
    &&& reads_existing_delegate(keys.len() as int, potential_existing_delegate, extra)
        && keys[delegate_record_index(extra) + 1]@ != default_key()
        ==> delegate_record_index(extra) + 2 < keys.len()
}

/// Reads the remaining accounts of a request: three pNFT accounts (or the
/// default address first), `extra_pnft_accounts` more, a delegate record, an
/// existing delegate and its record where one may be set, two more, then the
/// creator accounts.
pub fn parse_remaining_accounts_pnft(
    keys: &Vec<Pubkey>,
    potential_existing_delegate: bool,
    extra_pnft_accounts: Option<usize>,
) -> (r: ParsedRemainingAccounts)
    requires
        remaining_accounts_parse_defined(keys@, potential_existing_delegate, extra_pnft_accounts),
    ensures
        (r.pnft_params.token_record, r.pnft_params.authorization_rules, r.pnft_params.authorization_rules_program)
            == pnft_slots(keys@),
        r.pnft_params.authorization_data is None,
        ({
            let d = delegate_record_index(extra_pnft_accounts);
            &&& r.delegate_record == (if d < keys@.len() && keys@[d]@ != default_key() {
                Some(d as usize)
            } else {
                None
            })
            &&& r.existing_delegate_params == (if reads_existing_delegate(keys@.len() as int, potential_existing_delegate, extra_pnft_accounts)
                && keys@[d + 1]@ != default_key() {
                Some(ExistingDelegateParams { existing_delegate: (d + 1) as usize, existing_delegate_record: (d + 2) as usize })
            } else {
                None
            })
            &&& r.creator_accounts_start == (if reads_existing_delegate(keys@.len() as int, potential_existing_delegate, extra_pnft_accounts) {
                d + 5
            } else {
                d + 3
            })
        }),
        r.fees_on,
{
    let mut account_index: usize = 0;
    let pnft_params = parse_pnft_accounts(keys);
    account_index = account_index + 3;
    account_index = account_index + match extra_pnft_accounts {
        Some(e) => e,
        None => 0,
    };
    let delegate_record = if account_index < keys.len() {
        parse_delegate_record(keys, account_index)
    } else {
        None
    };
    account_index = account_index + 1;
    let existing_delegate_params = if potential_existing_delegate && account_index < keys.len() {
        let delegate_accounts = parse_existing_delegate_accounts(keys, account_index);
        account_index = account_index + 2;
        delegate_accounts
    } else {
        None
    };
    account_index = account_index + 2;
    ParsedRemainingAccounts {
        pnft_params,
        delegate_record,
        existing_delegate_params,
        fees_on: true,
        creator_accounts_start: account_index,
    }
}

/// Reads the remaining accounts of a request as `parse_remaining_accounts_pnft`
/// does, and records whether fees apply to the order.
pub fn parse_remaining_accounts(
    keys: &Vec<Pubkey>,
    initializer: Pubkey,
    fees_in_order: bool,
    potential_existing_delegate: bool,
    extra_pnft_accounts: Option<usize>,
) -> (r: ParsedRemainingAccounts)
    requires
        remaining_accounts_parse_defined(keys@, potential_existing_delegate, extra_pnft_accounts),
    ensures
        ({
            let p = parse_remaining_accounts_pnft_spec(keys@, potential_existing_delegate, extra_pnft_accounts);
            &&& (r.pnft_params.token_record, r.pnft_params.authorization_rules, r.pnft_params.authorization_rules_program) == p.0
            &&& r.delegate_record == p.1
            &&& r.existing_delegate_params == p.2
            &&& r.creator_accounts_start == p.3
        }),
        r.pnft_params.authorization_data is None,
        r.fees_on == fees_in_order,
{
    let parsed = parse_remaining_accounts_pnft(keys, potential_existing_delegate, extra_pnft_accounts);
    ParsedRemainingAccounts { fees_on: fees_in_order, ..parsed }
}

/// What `parse_remaining_accounts_pnft` reads: the pNFT accounts, the delegate
/// record, the existing delegate and where the creator accounts start.
pub open spec fn parse_remaining_accounts_pnft_spec(
    keys: Seq<Pubkey>,
    potential_existing_delegate: bool,
    extra: Option<usize>,
) -> ((Option<usize>, Option<usize>, Option<usize>), Option<usize>, Option<ExistingDelegateParams>, int) {
    let d = delegate_record_index(extra);
    let reads = reads_existing_delegate(keys.len() as int, potential_existing_delegate, extra);
    (
        pnft_slots(keys),
        if d < keys.len() && keys[d]@ != default_key() {
            Some(d as usize)
        } else {
            None
        },
        if reads && keys[d + 1]@ != default_key() {
            Some(ExistingDelegateParams { existing_delegate: (d + 1) as usize, existing_delegate_record: (d + 2) as usize })
        } else {
            None
        },
        if reads {
            d + 5
        } else {
            d + 3
        },
    )
}

/// The accounts of a Metaplex transfer beyond the usual ones, by position.
pub struct ExtraTransferParams {
    pub owner_token_record: Option<usize>,
    pub dest_token_record: Option<usize>,
    pub authorization_rules: Option<usize>,
    pub authorization_data: Option<mpl_token_metadata::types::AuthorizationData>,
    pub authorization_rules_program: Option<usize>,
}

/// The first four accounts as the owner token record, destination token
/// record, rule set and rules program, when there are at least
/// `start_index + 4` accounts; none of them otherwise.
pub fn get_extra_transfer_params(
    keys: &Vec<Pubkey>,
    authorization_data: Option<mpl_token_metadata::types::AuthorizationData>,
    start_index: usize,
) -> (r: ExtraTransferParams)
    requires
        start_index + 4 <= usize::MAX,
    ensures
        r.authorization_data == authorization_data,
        keys@.len() < start_index + 4 ==> r.owner_token_record is None && r.dest_token_record is None
            && r.authorization_rules is None && r.authorization_rules_program is None,
        keys@.len() >= start_index + 4 ==> r.owner_token_record == slot(keys@.len() as int, 0)
            && r.dest_token_record == slot(keys@.len() as int, 1)
            && r.authorization_rules == slot(keys@.len() as int, 2)
            && r.authorization_rules_program == slot(keys@.len() as int, 3),
{
    if keys.len() < start_index + 4 {
        return ExtraTransferParams {
            owner_token_record: None,
            dest_token_record: None,
            authorization_rules: None,
            authorization_data,
            authorization_rules_program: None,
        };
    }
    ExtraTransferParams {
        owner_token_record: get_slot(keys.len(), 0),
        dest_token_record: get_slot(keys.len(), 1),
        authorization_rules: get_slot(keys.len(), 2),
        authorization_data,
        authorization_rules_program: get_slot(keys.len(), 3),
    }
}

/// The accounts of a transfer of a Metaplex NFT, by position.
pub struct MetaplexTransferParams {
    pub nft_metadata: Option<usize>,
    pub nft_edition: Option<usize>,
    pub owner_token_record: Option<usize>,
    pub dest_token_record: Option<usize>,
    pub authorization_rules: Option<usize>,
    pub authorization_data: Option<mpl_token_metadata::types::AuthorizationData>,
    pub authorization_rules_program: Option<usize>,
}

/// Accounts 1 to 6, as far as there are any, as the metadata, edition, owner
/// and destination token records, rule set and rules program.
pub fn get_metaplex_transfer_params(
    keys: &Vec<Pubkey>,
    authorization_data: Option<mpl_token_metadata::types::AuthorizationData>,
) -> (r: MetaplexTransferParams)
    ensures
        r.nft_metadata == slot(keys@.len() as int, 1),
        r.nft_edition == slot(keys@.len() as int, 2),
        r.owner_token_record == slot(keys@.len() as int, 3),
        r.dest_token_record == slot(keys@.len() as int, 4),
        r.authorization_rules == slot(keys@.len() as int, 5),
        r.authorization_rules_program == slot(keys@.len() as int, 6),
        r.authorization_data == authorization_data,
{
    let n = keys.len();
    MetaplexTransferParams {
        nft_metadata: get_slot(n, 1),
        nft_edition: get_slot(n, 2),
        owner_token_record: get_slot(n, 3),
        dest_token_record: get_slot(n, 4),
        authorization_rules: get_slot(n, 5),
        authorization_data,
        authorization_rules_program: get_slot(n, 6),
    }
}

/// Accounts 0 to 2, as far as there are any, as the owner token record, rule
/// set and rules program of a freeze.
pub fn get_extra_freeze_params(
    keys: &Vec<Pubkey>,
    authorization_data: Option<mpl_token_metadata::types::AuthorizationData>,
) -> (r: PnftParams)
    ensures
        r.token_record == slot(keys@.len() as int, 0),
        r.authorization_rules == slot(keys@.len() as int, 1),
        r.authorization_rules_program == slot(keys@.len() as int, 2),
        r.authorization_data == authorization_data,
{
    let n = keys.len();
    PnftParams {
        token_record: get_slot(n, 0),
        authorization_rules: get_slot(n, 1),
        authorization_data,
        authorization_rules_program: get_slot(n, 2),
    }
}

/// The accounts of a revoke beyond the usual ones, by position.
pub struct ExtraRevokeParams {
    pub delegate_record: Option<usize>,
    pub master_edition: Option<usize>,
    pub token_record: Option<usize>,
    pub authorization_rules_program: Option<usize>,
    pub authorization_rules: Option<usize>,
    pub revoke_args: mpl_token_metadata::types::RevokeArgs,
}

/// Accounts 0 to 4, as far as there are any, as the delegate record, master
/// edition, token record, rules program and rule set of a revoke.
pub fn get_extra_revoke_params(keys: &Vec<Pubkey>, args: mpl_token_metadata::types::RevokeArgs) -> (r: ExtraRevokeParams)
    ensures
        r.delegate_record == slot(keys@.len() as int, 0),
        r.master_edition == slot(keys@.len() as int, 1),
        r.token_record == slot(keys@.len() as int, 2),
        r.authorization_rules_program == slot(keys@.len() as int, 3),
        r.authorization_rules == slot(keys@.len() as int, 4),
        r.revoke_args == args,
{
    let n = keys.len();
    ExtraRevokeParams {
        delegate_record: get_slot(n, 0),
        master_edition: get_slot(n, 1),
        token_record: get_slot(n, 2),
        authorization_rules_program: get_slot(n, 3),
        authorization_rules: get_slot(n, 4),
        revoke_args: args,
    }
}

} // verus!
