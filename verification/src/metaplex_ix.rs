use vstd::prelude::*;

use borsh::BorshSerialize;

use crate::cpi_accounts::{
    has_rule_set, lock_defined, BurnParams, FreezeNft, LockAccounts, MetaplexBurn, MetaplexCreate, MetaplexMint,
    MetaplexUnverify, MetaplexUpdate, MintParams, RevokeAccounts, RevokeNft, UnverifyAccounts, UpdateAccounts,
};
use crate::errors::MarketplaceError;
use crate::keys::Pubkey;
use crate::metadata::{decode_metadata, spec_metadata_facts, MetadataFactsView, TOKEN_STANDARD_PROGRAMMABLE_NON_FUNGIBLE};

verus! {

/// Metaplex's create arguments, carried through as they came.
#[verifier::external_type_specification]
#[verifier::external_body]
pub struct ExCreateArgs(mpl_token_metadata::types::CreateArgs);

/// The address of the Metaplex token metadata program
/// (`metaqbxxUerdq28cj1RbAWkYQm3ybzjb6a8bt518x1s`).
pub const MPL_TOKEN_METADATA_ID: Pubkey = [
    11, 112, 101, 177, 227, 209, 124, 69, 56, 157, 82, 127, 107, 4, 195, 205, 88, 184, 108, 115, 26, 160, 253, 181,
    73, 182, 209, 188, 3, 248, 41, 70,
];

/// An instruction, in plain values: the program it calls, its accounts (each
/// with whether it signs and whether it is written), and its data.
pub struct IxParts {
    pub program_id: Pubkey,
    pub accounts: Vec<(Pubkey, bool, bool)>,
    pub data: Vec<u8>,
}

/// The account of an optional slot of a Metaplex instruction: the account,
/// not signing, or the Metaplex program itself, read-only, in its place.
pub open spec fn opt_meta(o: Option<Pubkey>, writable: bool) -> (Pubkey, bool, bool) {
    match o {
        Some(k) => (k, false, writable),
        None => (MPL_TOKEN_METADATA_ID, false, false),
    }
}

/// The `n` little-endian bytes of `x`.
pub open spec fn le_bytes(x: nat, n: nat) -> Seq<u8>
    decreases n,
{
    if n == 0 {
        Seq::empty()
    } else {
        seq![(x % 256) as u8] + le_bytes(x / 256, (n - 1) as nat)
    }
}

/// The Borsh encoding of a `u64`: its eight little-endian bytes.
pub open spec fn u64_bytes(x: u64) -> Seq<u8> {
    le_bytes(x as nat, 8)
}

fn push_u64(v: &mut Vec<u8>, x: u64)
    ensures
        final(v)@ == old(v)@ + u64_bytes(x),
{
    let ghost start = v@;
    let mut y: u64 = x;
    let mut i: u64 = 0;
    while i < 8
        invariant
            i <= 8,
            v@ + le_bytes(y as nat, (8 - i) as nat) == start + le_bytes(x as nat, 8),
        decreases 8 - i,
    {
        let ghost before = v@;
        assert(le_bytes(y as nat, (8 - i) as nat) == seq![(y % 256) as u8] + le_bytes((y / 256) as nat, (8 - i - 1) as nat));
        v.push((y % 256) as u8);
        assert(v@ + le_bytes((y / 256) as nat, (8 - i - 1) as nat) =~= before + le_bytes(y as nat, (8 - i) as nat));
        y = y / 256;
        i = i + 1;
    }
    assert(v@ + le_bytes(y as nat, 0) =~= v@);
}

fn push_meta(v: &mut Vec<(Pubkey, bool, bool)>, k: Pubkey, signer: bool, writable: bool)
    ensures
        final(v)@ == old(v)@.push((k, signer, writable)),
{
    v.push((k, signer, writable));
}

fn push_opt_meta(v: &mut Vec<(Pubkey, bool, bool)>, o: Option<Pubkey>, writable: bool)
    ensures
        final(v)@ == old(v)@.push(opt_meta(o, writable)),
{
    match o {
        Some(k) => v.push((k, false, writable)),
        None => v.push((MPL_TOKEN_METADATA_ID, false, false)),
    }
}

/// The Borsh encoding of an absent `AuthorizationData`.
pub open spec fn no_authorization_data() -> Seq<u8> {
    seq![0u8]
}

/// Calls `BorshSerialize::try_to_vec` on Metaplex's `AuthorizationData`.
/// Nothing is stated of the bytes: the payload is a map of rule values whose
/// encoding takes pages.
#[verifier::external_body]
fn authorization_data_bytes(d: &mpl_token_metadata::types::AuthorizationData) -> (r: Vec<u8>) {
    d.try_to_vec().unwrap()
}

/// Appends the Borsh encoding of an optional `AuthorizationData`: a 0 for
/// none, a 1 and its encoding otherwise.
fn push_authorization_data(v: &mut Vec<u8>, d: &Option<mpl_token_metadata::types::AuthorizationData>)
    ensures
        d is None ==> final(v)@ == old(v)@ + no_authorization_data(),
        d is Some ==> final(v)@.len() > old(v)@.len() && final(v)@.subrange(0, old(v)@.len() as int + 1) == old(v)@.push(1u8),
{
    match d {
        None => {
            v.push(0u8);
            assert(final(v)@ =~= old(v)@ + no_authorization_data());
        },
        Some(x) => {
            v.push(1u8);
            let ghost pushed = v@;
            let mut rest = authorization_data_bytes(x);
            v.append(&mut rest);
            assert(v@.subrange(0, pushed.len() as int) =~= pushed);
        },
    }
}

// ---------------------------------------------------------------- burn

/// The accounts of Metaplex's `Burn`, as its instruction lists them.
pub open spec fn burn_metas(a: MetaplexBurn, p: BurnParams) -> Seq<(Pubkey, bool, bool)> {
    seq![
        (a.authority, true, true),
        opt_meta(p.collection_metadata, true),
        (a.metadata, false, true),
        opt_meta(p.edition, true),
        (a.mint, false, true),
        (a.token, false, true),
        opt_meta(p.master_edition, true),
        opt_meta(p.master_edition_mint, false),
        opt_meta(p.master_edition_token, false),
        opt_meta(p.edition_marker, true),
        opt_meta(p.token_record, true),
        (a.system_program, false, false),
        (a.sysvar_instructions, false, false),
        (a.spl_token_program, false, false),
    ]
}

/// The data of Metaplex's `Burn` with `BurnArgs::V1 { amount }`.
pub open spec fn burn_data(amount: u64) -> Seq<u8> {
    seq![41u8, 0u8] + u64_bytes(amount)
}

/// The Metaplex burn of `p.amount` tokens.
pub fn metaplex_burn_instruction(a: &MetaplexBurn, p: &BurnParams) -> (r: IxParts)
    ensures
        r.program_id == MPL_TOKEN_METADATA_ID,
        r.accounts@ == burn_metas(*a, *p),
        r.data@ == burn_data(p.amount),
{
    let mut m: Vec<(Pubkey, bool, bool)> = Vec::new();
    push_meta(&mut m, a.authority, true, true);
    push_opt_meta(&mut m, p.collection_metadata, true);
    push_meta(&mut m, a.metadata, false, true);
    push_opt_meta(&mut m, p.edition, true);
    push_meta(&mut m, a.mint, false, true);
    push_meta(&mut m, a.token, false, true);
    push_opt_meta(&mut m, p.master_edition, true);
    push_opt_meta(&mut m, p.master_edition_mint, false);
    push_opt_meta(&mut m, p.master_edition_token, false);
    push_opt_meta(&mut m, p.edition_marker, true);
    push_opt_meta(&mut m, p.token_record, true);
    push_meta(&mut m, a.system_program, false, false);
    push_meta(&mut m, a.sysvar_instructions, false, false);
    push_meta(&mut m, a.spl_token_program, false, false);
    assert(m@ =~= burn_metas(*a, *p));
    let mut d: Vec<u8> = Vec::new();
    d.push(41u8);
    d.push(0u8);
    push_u64(&mut d, p.amount);
    assert(d@ =~= burn_data(p.amount));
    IxParts { program_id: MPL_TOKEN_METADATA_ID, accounts: m, data: d }
}

// ---------------------------------------------------------------- create

/// The accounts of Metaplex's `Create`, as its instruction lists them.
pub open spec fn create_metas(
    a: MetaplexCreate,
    master_edition: Option<Pubkey>,
    initialize_mint: bool,
    update_authority_as_signer: bool,
) -> Seq<(Pubkey, bool, bool)> {
    seq![
        (a.metadata, false, true),
        opt_meta(master_edition, true),
        (a.mint, initialize_mint, true),
        (a.authority, true, false),
        (a.payer, true, true),
        (a.update_authority, update_authority_as_signer, false),
        (a.system_program, false, false),
        (a.sysvar_instructions, false, false),
        (a.spl_token_program, false, false),
    ]
}

/// Calls `BorshSerialize::try_to_vec` on Metaplex's `CreateArgs`. Trusted:
/// the encoding starts with the variant's position, 0 for `V1` (the only
/// one). The rest (names, creators, collection and the like) is not stated.
#[verifier::external_body]
fn create_args_bytes(args: &mpl_token_metadata::types::CreateArgs) -> (r: Vec<u8>)
    ensures
        r@.len() >= 1,
        r@[0] == 0u8,
{
    args.try_to_vec().unwrap()
}

/// The Metaplex create of the NFT's metadata (and master edition, where one
/// comes), with `args`. The data is `Create`'s discriminator, 42, then the
/// encoding of `args`.
pub fn metaplex_create_instruction(
    a: &MetaplexCreate,
    master_edition: Option<Pubkey>,
    initialize_mint: bool,
    update_authority_as_signer: bool,
    args: &mpl_token_metadata::types::CreateArgs,
) -> (r: IxParts)
    ensures
        r.program_id == MPL_TOKEN_METADATA_ID,
        r.accounts@ == create_metas(*a, master_edition, initialize_mint, update_authority_as_signer),
        r.data@.len() >= 2,
        r.data@[0] == 42u8,
        r.data@[1] == 0u8,
{
    let mut m: Vec<(Pubkey, bool, bool)> = Vec::new();
    push_meta(&mut m, a.metadata, false, true);
    push_opt_meta(&mut m, master_edition, true);
    push_meta(&mut m, a.mint, initialize_mint, true);
    push_meta(&mut m, a.authority, true, false);
    push_meta(&mut m, a.payer, true, true);
    push_meta(&mut m, a.update_authority, update_authority_as_signer, false);
    push_meta(&mut m, a.system_program, false, false);
    push_meta(&mut m, a.sysvar_instructions, false, false);
    push_meta(&mut m, a.spl_token_program, false, false);
    assert(m@ =~= create_metas(*a, master_edition, initialize_mint, update_authority_as_signer));
    let mut d: Vec<u8> = Vec::new();
    d.push(42u8);
    let mut rest = create_args_bytes(args);
    let ghost encoded = rest@;
    d.append(&mut rest);
    assert(d@[1] == encoded[0]);
    IxParts { program_id: MPL_TOKEN_METADATA_ID, accounts: m, data: d }
}

// ---------------------------------------------------------------- mint

/// The accounts of Metaplex's `Mint`, as its instruction lists them.
pub open spec fn mint_metas(a: MetaplexMint, p: MintParams) -> Seq<(Pubkey, bool, bool)> {
    seq![
        (a.token, false, true),
        (a.token_owner, false, false),
        (a.metadata, false, false),
        opt_meta(p.master_edition, true),
        opt_meta(p.token_record, true),
        (a.mint, false, true),
        (a.authority, true, false),
        opt_meta(p.delegate_record, false),
        (a.payer, true, true),
        (a.system_program, false, false),
        (a.sysvar_instructions, false, false),
        (a.spl_token_program, false, false),
        (a.spl_ata_program, false, false),
        opt_meta(p.authorization_rules_program, false),
        opt_meta(p.authorization_rules, false),
    ]
}

/// The data of Metaplex's `Mint` with `MintArgs::V1 { amount, authorization_data: None }`.
pub open spec fn mint_data(amount: u64) -> Seq<u8> {
    seq![43u8, 0u8] + u64_bytes(amount) + no_authorization_data()
}

/// The Metaplex mint of one token (the only amount minted), with the given
/// authorization data.
pub fn metaplex_mint_instruction(
    a: &MetaplexMint,
    p: &MintParams,
    authorization_data: &Option<mpl_token_metadata::types::AuthorizationData>,
) -> (r: IxParts)
    ensures
        r.program_id == MPL_TOKEN_METADATA_ID,
        r.accounts@ == mint_metas(*a, *p),
        authorization_data is None ==> r.data@ == mint_data(1),
        authorization_data is Some ==> r.data@.len() >= 11
            && r.data@.subrange(0, 11) == (seq![43u8, 0u8] + u64_bytes(1)).push(1u8),
{
    let mut m: Vec<(Pubkey, bool, bool)> = Vec::new();
    push_meta(&mut m, a.token, false, true);
    push_meta(&mut m, a.token_owner, false, false);
    push_meta(&mut m, a.metadata, false, false);
    push_opt_meta(&mut m, p.master_edition, true);
    push_opt_meta(&mut m, p.token_record, true);
    push_meta(&mut m, a.mint, false, true);
    push_meta(&mut m, a.authority, true, false);
    push_opt_meta(&mut m, p.delegate_record, false);
    push_meta(&mut m, a.payer, true, true);
    push_meta(&mut m, a.system_program, false, false);
    push_meta(&mut m, a.sysvar_instructions, false, false);
    push_meta(&mut m, a.spl_token_program, false, false);
    push_meta(&mut m, a.spl_ata_program, false, false);
    push_opt_meta(&mut m, p.authorization_rules_program, false);
    push_opt_meta(&mut m, p.authorization_rules, false);
    assert(m@ =~= mint_metas(*a, *p));
    let mut d: Vec<u8> = Vec::new();
    d.push(43u8);
    d.push(0u8);
    push_u64(&mut d, 1);
    assert(d@ =~= seq![43u8, 0u8] + u64_bytes(1));
    assert(d@.len() == 10) by {
        reveal_with_fuel(le_bytes, 9);
    }
    push_authorization_data(&mut d, authorization_data);
    assert(authorization_data is None ==> d@ =~= mint_data(1));
    IxParts { program_id: MPL_TOKEN_METADATA_ID, accounts: m, data: d }
}

// ---------------------------------------------------------------- revoke

/// The accounts of Metaplex's `Revoke`, as its instruction lists them.
pub open spec fn revoke_metas(a: RevokeNft, p: RevokeAccounts) -> Seq<(Pubkey, bool, bool)> {
    seq![
        opt_meta(p.delegate_record, true),
        (a.delegate, false, false),
        (a.metadata, false, true),
        opt_meta(p.master_edition, false),
        opt_meta(p.token_record, true),
        (a.mint, false, false),
        (a.token, false, true),
        (a.authority, true, false),
        (a.payer, true, true),
        (a.system_program, false, false),
        (a.sysvar_instructions, false, false),
        (a.token_program, false, false),
        opt_meta(p.authorization_rules_program, false),
        opt_meta(p.authorization_rules, false),
    ]
}

/// The data of Metaplex's `Revoke` of the kind at position `kind` in its
/// `RevokeArgs`.
pub open spec fn revoke_data(kind: u8) -> Seq<u8> {
    seq![45u8, kind]
}

/// The Metaplex revoke of the delegate of kind `kind` (its position in
/// `RevokeArgs`, of which there are 15).
pub fn metaplex_revoke_instruction(a: &RevokeNft, p: &RevokeAccounts, kind: u8) -> (r: IxParts)
    requires
        kind < 15,
    ensures
        r.program_id == MPL_TOKEN_METADATA_ID,
        r.accounts@ == revoke_metas(*a, *p),
        r.data@ == revoke_data(kind),
{
    let mut m: Vec<(Pubkey, bool, bool)> = Vec::new();
    push_opt_meta(&mut m, p.delegate_record, true);
    push_meta(&mut m, a.delegate, false, false);
    push_meta(&mut m, a.metadata, false, true);
    push_opt_meta(&mut m, p.master_edition, false);
    push_opt_meta(&mut m, p.token_record, true);
    push_meta(&mut m, a.mint, false, false);
    push_meta(&mut m, a.token, false, true);
    push_meta(&mut m, a.authority, true, false);
    push_meta(&mut m, a.payer, true, true);
    push_meta(&mut m, a.system_program, false, false);
    push_meta(&mut m, a.sysvar_instructions, false, false);
    push_meta(&mut m, a.token_program, false, false);
    push_opt_meta(&mut m, p.authorization_rules_program, false);
    push_opt_meta(&mut m, p.authorization_rules, false);
    assert(m@ =~= revoke_metas(*a, *p));
    let mut d: Vec<u8> = Vec::new();
    d.push(45u8);
    d.push(kind);
    assert(d@ =~= revoke_data(kind));
    IxParts { program_id: MPL_TOKEN_METADATA_ID, accounts: m, data: d }
}

// ---------------------------------------------------------------- unverify

/// The accounts of Metaplex's `Unverify`, as its instruction lists them.
pub open spec fn unverify_metas(a: MetaplexUnverify, p: UnverifyAccounts) -> Seq<(Pubkey, bool, bool)> {
    seq![
        (a.authority, true, false),
        opt_meta(p.delegate_record, false),
        (a.metadata, false, true),
        opt_meta(p.collection_mint, false),
        opt_meta(p.collection_metadata, true),
        (a.system_program, false, false),
        (a.sysvar_instructions, false, false),
    ]
}

/// The data of Metaplex's `Unverify` of the kind at position `kind` in its
/// `VerificationArgs` (0 for a creator, 1 for a collection).
pub open spec fn unverify_data(kind: u8) -> Seq<u8> {
    seq![53u8, kind]
}

/// The Metaplex removal of a verification of kind `kind` (its position in
/// `VerificationArgs`, of which there are 2).
pub fn metaplex_unverify_instruction(a: &MetaplexUnverify, p: &UnverifyAccounts, kind: u8) -> (r: IxParts)
    requires
        kind < 2,
    ensures
        r.program_id == MPL_TOKEN_METADATA_ID,
        r.accounts@ == unverify_metas(*a, *p),
        r.data@ == unverify_data(kind),
{
    let mut m: Vec<(Pubkey, bool, bool)> = Vec::new();
    push_meta(&mut m, a.authority, true, false);
    push_opt_meta(&mut m, p.delegate_record, false);
    push_meta(&mut m, a.metadata, false, true);
    push_opt_meta(&mut m, p.collection_mint, false);
    push_opt_meta(&mut m, p.collection_metadata, true);
    push_meta(&mut m, a.system_program, false, false);
    push_meta(&mut m, a.sysvar_instructions, false, false);
    assert(m@ =~= unverify_metas(*a, *p));
    let mut d: Vec<u8> = Vec::new();
    d.push(53u8);
    d.push(kind);
    assert(d@ =~= unverify_data(kind));
    IxParts { program_id: MPL_TOKEN_METADATA_ID, accounts: m, data: d }
}

// ---------------------------------------------------------------- update

/// The accounts of Metaplex's `Update`, as its instruction lists them.
pub open spec fn update_metas(a: MetaplexUpdate, p: UpdateAccounts) -> Seq<(Pubkey, bool, bool)> {
    seq![
        (a.authority, true, false),
        opt_meta(p.delegate_record, false),
        opt_meta(p.token, false),
        (a.mint, false, false),
        (a.metadata, false, true),
        opt_meta(p.edition, false),
        (a.payer, true, true),
        (a.system_program, false, false),
        (a.sysvar_instructions, false, false),
        opt_meta(p.authorization_rules_program, false),
        opt_meta(p.authorization_rules, false),
    ]
}

/// Metaplex's update arguments, carried through as they came.
#[verifier::external_type_specification]
#[verifier::external_body]
pub struct ExUpdateArgs(mpl_token_metadata::types::UpdateArgs);

/// Calls `BorshSerialize::try_to_vec` on Metaplex's `UpdateArgs`. Trusted:
/// the encoding holds at least the variant's position. The rest is not
/// stated.
#[verifier::external_body]
fn update_args_bytes(args: &mpl_token_metadata::types::UpdateArgs) -> (r: Vec<u8>)
    ensures
        r@.len() >= 1,
{
    args.try_to_vec().unwrap()
}

/// The Metaplex update of an NFT's metadata with `args`. The data is
/// `Update`'s discriminator, 50, then the encoding of `args`.
pub fn metaplex_update_instruction(
    a: &MetaplexUpdate,
    p: &UpdateAccounts,
    args: &mpl_token_metadata::types::UpdateArgs,
) -> (r: IxParts)
    ensures
        r.program_id == MPL_TOKEN_METADATA_ID,
        r.accounts@ == update_metas(*a, *p),
        r.data@.len() >= 2,
        r.data@[0] == 50u8,
{
    let mut m: Vec<(Pubkey, bool, bool)> = Vec::new();
    push_meta(&mut m, a.authority, true, false);
    push_opt_meta(&mut m, p.delegate_record, false);
    push_opt_meta(&mut m, p.token, false);
    push_meta(&mut m, a.mint, false, false);
    push_meta(&mut m, a.metadata, false, true);
    push_opt_meta(&mut m, p.edition, false);
    push_meta(&mut m, a.payer, true, true);
    push_meta(&mut m, a.system_program, false, false);
    push_meta(&mut m, a.sysvar_instructions, false, false);
    push_opt_meta(&mut m, p.authorization_rules_program, false);
    push_opt_meta(&mut m, p.authorization_rules, false);
    assert(m@ =~= update_metas(*a, *p));
    let mut d: Vec<u8> = Vec::new();
    d.push(50u8);
    let mut rest = update_args_bytes(args);
    d.append(&mut rest);
    IxParts { program_id: MPL_TOKEN_METADATA_ID, accounts: m, data: d }
}

// ---------------------------------------------------------------- lock and unlock

/// The token record a lock hands over: only for a programmable NFT.
pub open spec fn lock_token_record(m: MetadataFactsView, p: LockAccounts) -> Option<Pubkey> {
    if m.token_standard == Some(TOKEN_STANDARD_PROGRAMMABLE_NON_FUNGIBLE) { p.token_record } else { None }
}

/// The rules (and rules program) a lock hands over: only for a rule set.
pub open spec fn lock_rules(m: MetadataFactsView, o: Option<Pubkey>) -> Option<Pubkey> {
    if has_rule_set(m) { o } else { None }
}

/// The accounts of Metaplex's `Lock` and `Unlock`, as their instructions list
/// them: the delegate signs; the token record goes only for a programmable
/// NFT, the rules and rules program only for a rule set.
pub open spec fn lock_metas(a: FreezeNft, m: MetadataFactsView, p: LockAccounts) -> Seq<(Pubkey, bool, bool)> {
    seq![
        (a.delegate, true, false),
        (a.token_owner, false, false),
        (a.token, false, true),
        (a.mint, false, false),
        (a.metadata, false, true),
        (a.edition, false, false),
        opt_meta(lock_token_record(m, p), true),
        (a.payer, true, true),
        (a.system_program, false, false),
        (a.instructions, false, false),
        (a.token_program, false, false),
        opt_meta(lock_rules(m, p.authorization_rules_program), false),
        opt_meta(lock_rules(m, p.authorization_rules), false),
    ]
}

/// The data of Metaplex's `Lock` (`unlock` false) or `Unlock` (`unlock`
/// true) with no authorization data.
pub open spec fn lock_data(unlock: bool) -> Seq<u8> {
    seq![if unlock { 47u8 } else { 46u8 }, 0u8] + no_authorization_data()
}

fn lock_instruction(
    a: &FreezeNft,
    metadata_data: &[u8],
    p: &LockAccounts,
    authorization_data: &Option<mpl_token_metadata::types::AuthorizationData>,
    unlock: bool,
) -> (r: Option<Result<IxParts, MarketplaceError>>)
    ensures
        match spec_metadata_facts(metadata_data@) {
            None => r matches Some(Err(MarketplaceError::AccountDataUnreadable)),
            Some(m) => if lock_defined(m, *p) {
                r matches Some(Ok(ix)) && ix.program_id == MPL_TOKEN_METADATA_ID
                    && ix.accounts@ == lock_metas(*a, m, *p)
                    && (authorization_data is None ==> ix.data@ == lock_data(unlock))
                    && (authorization_data is Some ==> ix.data@.len() > 2
                        && ix.data@.subrange(0, 3) == seq![if unlock { 47u8 } else { 46u8 }, 0u8, 1u8])
            } else {
                r is None
            },
        },
{
    let md = match decode_metadata(metadata_data) {
        Some(md) => md,
        None => return Some(Err(MarketplaceError::AccountDataUnreadable)),
    };
    let pnft = match md.token_standard {
        Some(s) => s == TOKEN_STANDARD_PROGRAMMABLE_NON_FUNGIBLE,
        None => false,
    };
    let rule_set = match md.programmable_config {
        Some(Some(_)) => true,
        _ => false,
    };
    if pnft && p.token_record.is_none() {
        return None;
    }
    if rule_set && (p.authorization_rules.is_none() || p.authorization_rules_program.is_none()) {
        return None;
    }
    let token_record = if pnft { p.token_record } else { None };
    let rules_program = if rule_set { p.authorization_rules_program } else { None };
    let rules = if rule_set { p.authorization_rules } else { None };
    let mut m: Vec<(Pubkey, bool, bool)> = Vec::new();
    push_meta(&mut m, a.delegate, true, false);
    push_meta(&mut m, a.token_owner, false, false);
    push_meta(&mut m, a.token, false, true);
    push_meta(&mut m, a.mint, false, false);
    push_meta(&mut m, a.metadata, false, true);
    push_meta(&mut m, a.edition, false, false);
    push_opt_meta(&mut m, token_record, true);
    push_meta(&mut m, a.payer, true, true);
    push_meta(&mut m, a.system_program, false, false);
    push_meta(&mut m, a.instructions, false, false);
    push_meta(&mut m, a.token_program, false, false);
    push_opt_meta(&mut m, rules_program, false);
    push_opt_meta(&mut m, rules, false);
    assert(m@ =~= lock_metas(*a, md@, *p));
    let mut d: Vec<u8> = Vec::new();
    d.push(if unlock { 47u8 } else { 46u8 });
    d.push(0u8);
    push_authorization_data(&mut d, authorization_data);
    assert(authorization_data is None ==> d@ =~= lock_data(unlock));
    assert(authorization_data is Some ==> d@.subrange(0, 3) =~= seq![if unlock { 47u8 } else { 46u8 }, 0u8, 1u8]);
    Some(Ok(IxParts { program_id: MPL_TOKEN_METADATA_ID, accounts: m, data: d }))
}

/// The Metaplex lock of the NFT whose metadata account holds
/// `metadata_data`, by its delegate. Metadata that does not decode is
/// refused; `None` where the program aborts: a programmable NFT without its
/// token record, or a rule set without its rules and rules program.
pub fn metaplex_lock_instruction(
    a: &FreezeNft,
    metadata_data: &[u8],
    p: &LockAccounts,
    authorization_data: &Option<mpl_token_metadata::types::AuthorizationData>,
) -> (r: Option<Result<IxParts, MarketplaceError>>)
    ensures
        match spec_metadata_facts(metadata_data@) {
            None => r matches Some(Err(MarketplaceError::AccountDataUnreadable)),
            Some(m) => if lock_defined(m, *p) {
                r matches Some(Ok(ix)) && ix.program_id == MPL_TOKEN_METADATA_ID
                    && ix.accounts@ == lock_metas(*a, m, *p)
                    && (authorization_data is None ==> ix.data@ == lock_data(false))
                    && (authorization_data is Some ==> ix.data@.len() > 2
                        && ix.data@.subrange(0, 3) == seq![46u8, 0u8, 1u8])
            } else {
                r is None
            },
        },
{
    lock_instruction(a, metadata_data, p, authorization_data, false)
}

/// The Metaplex unlock of the NFT whose metadata account holds
/// `metadata_data`, by its delegate; refused and aborted as
/// `metaplex_lock_instruction` is.
pub fn metaplex_unlock_instruction(
    a: &FreezeNft,
    metadata_data: &[u8],
    p: &LockAccounts,
    authorization_data: &Option<mpl_token_metadata::types::AuthorizationData>,
) -> (r: Option<Result<IxParts, MarketplaceError>>)
    ensures
        match spec_metadata_facts(metadata_data@) {
            None => r matches Some(Err(MarketplaceError::AccountDataUnreadable)),
            Some(m) => if lock_defined(m, *p) {
                r matches Some(Ok(ix)) && ix.program_id == MPL_TOKEN_METADATA_ID
                    && ix.accounts@ == lock_metas(*a, m, *p)
                    && (authorization_data is None ==> ix.data@ == lock_data(true))
                    && (authorization_data is Some ==> ix.data@.len() > 2
                        && ix.data@.subrange(0, 3) == seq![47u8, 0u8, 1u8])
            } else {
                r is None
            },
        },
{
    lock_instruction(a, metadata_data, p, authorization_data, true)
}

// ---------------------------------------------------------------- freeze and thaw of a delegated account

/// The accounts of Metaplex's `FreezeDelegatedAccount` and
/// `ThawDelegatedAccount`: the delegate signs.
pub open spec fn freeze_delegated_metas(a: FreezeNft) -> Seq<(Pubkey, bool, bool)> {
    seq![
        (a.delegate, true, true),
        (a.token, false, true),
        (a.edition, false, false),
        (a.mint, false, false),
        (a.token_program, false, false),
    ]
}

/// The Metaplex freeze (`thaw` false, discriminator 26) or thaw (`thaw`
/// true, discriminator 27) of a delegated token account.
pub fn metaplex_freeze_delegated_instruction(a: &FreezeNft, thaw: bool) -> (r: IxParts)
    ensures
        r.program_id == MPL_TOKEN_METADATA_ID,
        r.accounts@ == freeze_delegated_metas(*a),
        r.data@ == seq![if thaw { 27u8 } else { 26u8 }],
{
    let mut m: Vec<(Pubkey, bool, bool)> = Vec::new();
    push_meta(&mut m, a.delegate, true, true);
    push_meta(&mut m, a.token, false, true);
    push_meta(&mut m, a.edition, false, false);
    push_meta(&mut m, a.mint, false, false);
    push_meta(&mut m, a.token_program, false, false);
    assert(m@ =~= freeze_delegated_metas(*a));
    let mut d: Vec<u8> = Vec::new();
    d.push(if thaw { 27u8 } else { 26u8 });
    assert(d@ =~= seq![if thaw { 27u8 } else { 26u8 }]);
    IxParts { program_id: MPL_TOKEN_METADATA_ID, accounts: m, data: d }
}

} // verus!
