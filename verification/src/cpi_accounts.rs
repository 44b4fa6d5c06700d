use vstd::prelude::*;

use crate::keys::Pubkey;
use crate::errors::MarketplaceError;
use crate::metadata::{decode_metadata, spec_metadata_facts, MetadataFacts, TOKEN_STANDARD_PROGRAMMABLE_NON_FUNGIBLE};

verus! {

/// The account of an optional slot, as a list of zero or one accounts.
pub open spec fn opt(o: Option<Pubkey>) -> Seq<Pubkey> {
    match o {
        Some(k) => seq![k],
        None => Seq::empty(),
    }
}

/// Appends the account of an optional slot, if there is one.
fn push_opt(v: &mut Vec<Pubkey>, o: Option<Pubkey>)
    ensures
        final(v)@ == old(v)@ + opt(o),
{
    match o {
        Some(k) => {
            v.push(k);
            assert(final(v)@ =~= old(v)@ + opt(o));
        },
        None => {
            assert(final(v)@ =~= old(v)@ + opt(o));
        },
    }
}

/// The fixed accounts of a Metaplex burn.
#[derive(Debug, Clone, Copy)]
pub struct MetaplexBurn {
    pub authority: Pubkey,
    pub metadata: Pubkey,
    pub mint: Pubkey,
    pub token: Pubkey,
    pub system_program: Pubkey,
    pub sysvar_instructions: Pubkey,
    pub spl_token_program: Pubkey,
}

/// The optional accounts of a Metaplex burn, and the amount burnt.
#[derive(Debug, Clone, Copy)]
pub struct BurnParams {
    pub collection_metadata: Option<Pubkey>,
    pub edition: Option<Pubkey>,
    pub master_edition: Option<Pubkey>,
    pub master_edition_mint: Option<Pubkey>,
    pub master_edition_token: Option<Pubkey>,
    pub edition_marker: Option<Pubkey>,
    pub token_record: Option<Pubkey>,
    pub amount: u64,
}

/// The accounts handed to a Metaplex burn, in order.
pub fn metaplex_burn_accounts(a: &MetaplexBurn, p: &BurnParams) -> (r: Vec<Pubkey>)
    ensures
        r@ == seq![a.metadata, a.authority] + opt(p.collection_metadata) + seq![a.metadata] + opt(p.edition)
            + seq![a.mint, a.token] + opt(p.master_edition) + opt(p.master_edition_mint)
            + opt(p.master_edition_token) + opt(p.edition_marker) + opt(p.token_record)
            + seq![a.system_program, a.sysvar_instructions, a.spl_token_program],
{
    let mut v: Vec<Pubkey> = Vec::new();
    v.push(a.metadata);
    v.push(a.authority);
    assert(v@ =~= seq![a.metadata, a.authority]);
    push_opt(&mut v, p.collection_metadata);
    let ghost s1 = v@;
    v.push(a.metadata);
    assert(v@ =~= s1 + seq![a.metadata]);
    push_opt(&mut v, p.edition);
    let ghost s2 = v@;
    v.push(a.mint);
    v.push(a.token);
    assert(v@ =~= s2 + seq![a.mint, a.token]);
    push_opt(&mut v, p.master_edition);
    push_opt(&mut v, p.master_edition_mint);
    push_opt(&mut v, p.master_edition_token);
    push_opt(&mut v, p.edition_marker);
    push_opt(&mut v, p.token_record);
    let ghost s3 = v@;
    v.push(a.system_program);
    v.push(a.sysvar_instructions);
    v.push(a.spl_token_program);
    assert(v@ =~= s3 + seq![a.system_program, a.sysvar_instructions, a.spl_token_program]);
    v
}

/// The fixed accounts of a Metaplex create.
#[derive(Debug, Clone, Copy)]
pub struct MetaplexCreate {
    pub metadata: Pubkey,
    pub mint: Pubkey,
    pub authority: Pubkey,
    pub payer: Pubkey,
    pub update_authority: Pubkey,
    pub system_program: Pubkey,
    pub sysvar_instructions: Pubkey,
    pub spl_token_program: Pubkey,
}

/// The accounts handed to a Metaplex create, in order.
pub fn metaplex_create_accounts(a: &MetaplexCreate, master_edition: Option<Pubkey>) -> (r: Vec<Pubkey>)
    ensures
        r@ == seq![a.metadata] + opt(master_edition) + seq![a.mint, a.authority, a.payer, a.update_authority,
            a.system_program, a.sysvar_instructions, a.spl_token_program],
{
    let mut v: Vec<Pubkey> = Vec::new();
    v.push(a.metadata);
    push_opt(&mut v, master_edition);
    v.push(a.mint);
    v.push(a.authority);
    v.push(a.payer);
    v.push(a.update_authority);
    v.push(a.system_program);
    v.push(a.sysvar_instructions);
    v.push(a.spl_token_program);
    assert(v@ =~= seq![a.metadata] + opt(master_edition) + seq![a.mint, a.authority, a.payer, a.update_authority,
        a.system_program, a.sysvar_instructions, a.spl_token_program]);
    v
}

/// The fixed accounts of a Metaplex mint.
#[derive(Debug, Clone, Copy)]
pub struct MetaplexMint {
    pub token: Pubkey,
    pub token_owner: Pubkey,
    pub metadata: Pubkey,
    pub mint: Pubkey,
    pub authority: Pubkey,
    pub payer: Pubkey,
    pub system_program: Pubkey,
    pub sysvar_instructions: Pubkey,
    pub spl_token_program: Pubkey,
    pub spl_ata_program: Pubkey,
}

/// The optional accounts of a Metaplex mint.
#[derive(Debug, Clone, Copy)]
pub struct MintParams {
    pub master_edition: Option<Pubkey>,
    pub token_record: Option<Pubkey>,
    pub delegate_record: Option<Pubkey>,
    pub authorization_rules_program: Option<Pubkey>,
    pub authorization_rules: Option<Pubkey>,
}

/// The accounts handed to a Metaplex mint, in order.
pub fn metaplex_mint_accounts(a: &MetaplexMint, p: &MintParams) -> (r: Vec<Pubkey>)
    ensures
        r@ == seq![a.token, a.token_owner, a.metadata] + opt(p.master_edition) + opt(p.token_record)
            + seq![a.mint, a.authority] + opt(p.delegate_record)
            + seq![a.payer, a.system_program, a.sysvar_instructions, a.spl_token_program, a.spl_ata_program]
            + opt(p.authorization_rules_program) + opt(p.authorization_rules),
{
    let mut v: Vec<Pubkey> = Vec::new();
    v.push(a.token);
    v.push(a.token_owner);
    v.push(a.metadata);
    push_opt(&mut v, p.master_edition);
    push_opt(&mut v, p.token_record);
    v.push(a.mint);
    v.push(a.authority);
    push_opt(&mut v, p.delegate_record);
    v.push(a.payer);
    v.push(a.system_program);
    v.push(a.sysvar_instructions);
    v.push(a.spl_token_program);
    v.push(a.spl_ata_program);
    push_opt(&mut v, p.authorization_rules_program);
    push_opt(&mut v, p.authorization_rules);
    assert(v@ =~= seq![a.token, a.token_owner, a.metadata] + opt(p.master_edition) + opt(p.token_record)
        + seq![a.mint, a.authority] + opt(p.delegate_record)
        + seq![a.payer, a.system_program, a.sysvar_instructions, a.spl_token_program, a.spl_ata_program]
        + opt(p.authorization_rules_program) + opt(p.authorization_rules));
    v
}

/// The fixed accounts of a Metaplex revoke.
#[derive(Debug, Clone, Copy)]
pub struct RevokeNft {
    pub token: Pubkey,
    pub delegate: Pubkey,
    pub metadata: Pubkey,
    pub mint: Pubkey,
    pub authority: Pubkey,
    pub payer: Pubkey,
    pub token_program: Pubkey,
    pub system_program: Pubkey,
    pub sysvar_instructions: Pubkey,
}

/// The optional accounts of a Metaplex revoke.
#[derive(Debug, Clone, Copy)]
pub struct RevokeAccounts {
    pub delegate_record: Option<Pubkey>,
    pub master_edition: Option<Pubkey>,
    pub token_record: Option<Pubkey>,
    pub authorization_rules_program: Option<Pubkey>,
    pub authorization_rules: Option<Pubkey>,
}

/// The accounts handed to a Metaplex revoke, in order.
pub fn metaplex_revoke_accounts(a: &RevokeNft, p: &RevokeAccounts) -> (r: Vec<Pubkey>)
    ensures
        r@ == opt(p.delegate_record) + seq![a.delegate, a.metadata] + opt(p.master_edition) + opt(p.token_record)
            + seq![a.mint, a.token, a.authority, a.payer, a.system_program, a.sysvar_instructions, a.token_program]
            + opt(p.authorization_rules_program) + opt(p.authorization_rules),
{
    let mut v: Vec<Pubkey> = Vec::new();
    push_opt(&mut v, p.delegate_record);
    v.push(a.delegate);
    v.push(a.metadata);
    push_opt(&mut v, p.master_edition);
    push_opt(&mut v, p.token_record);
    v.push(a.mint);
    v.push(a.token);
    v.push(a.authority);
    v.push(a.payer);
    v.push(a.system_program);
    v.push(a.sysvar_instructions);
    v.push(a.token_program);
    push_opt(&mut v, p.authorization_rules_program);
    push_opt(&mut v, p.authorization_rules);
    assert(v@ =~= opt(p.delegate_record) + seq![a.delegate, a.metadata] + opt(p.master_edition) + opt(p.token_record)
        + seq![a.mint, a.token, a.authority, a.payer, a.system_program, a.sysvar_instructions, a.token_program]
        + opt(p.authorization_rules_program) + opt(p.authorization_rules));
    v
}

/// The fixed accounts of a Metaplex unverify.
#[derive(Debug, Clone, Copy)]
pub struct MetaplexUnverify {
    pub authority: Pubkey,
    pub metadata: Pubkey,
    pub system_program: Pubkey,
    pub sysvar_instructions: Pubkey,
}

/// The optional accounts of a Metaplex unverify.
#[derive(Debug, Clone, Copy)]
pub struct UnverifyAccounts {
    pub delegate_record: Option<Pubkey>,
    pub collection_mint: Option<Pubkey>,
    pub collection_metadata: Option<Pubkey>,
}

/// The accounts handed to a Metaplex unverify, in order.
pub fn metaplex_unverify_accounts(a: &MetaplexUnverify, p: &UnverifyAccounts) -> (r: Vec<Pubkey>)
    ensures
        r@ == seq![a.authority] + opt(p.delegate_record) + seq![a.metadata] + opt(p.collection_mint)
            + opt(p.collection_metadata) + seq![a.system_program, a.sysvar_instructions],
{
    let mut v: Vec<Pubkey> = Vec::new();
    v.push(a.authority);
    push_opt(&mut v, p.delegate_record);
    v.push(a.metadata);
    push_opt(&mut v, p.collection_mint);
    push_opt(&mut v, p.collection_metadata);
    v.push(a.system_program);
    v.push(a.sysvar_instructions);
    assert(v@ =~= seq![a.authority] + opt(p.delegate_record) + seq![a.metadata] + opt(p.collection_mint)
        + opt(p.collection_metadata) + seq![a.system_program, a.sysvar_instructions]);
    v
}

/// The fixed accounts of a Metaplex update.
#[derive(Debug, Clone, Copy)]
pub struct MetaplexUpdate {
    pub authority: Pubkey,
    pub mint: Pubkey,
    pub metadata: Pubkey,
    pub payer: Pubkey,
    pub system_program: Pubkey,
    pub sysvar_instructions: Pubkey,
}

/// The optional accounts of a Metaplex update.
#[derive(Debug, Clone, Copy)]
pub struct UpdateAccounts {
    pub delegate_record: Option<Pubkey>,
    pub token: Option<Pubkey>,
    pub edition: Option<Pubkey>,
    pub authorization_rules_program: Option<Pubkey>,
    pub authorization_rules: Option<Pubkey>,
}

/// The accounts handed to a Metaplex update, in order.
pub fn metaplex_update_accounts(a: &MetaplexUpdate, p: &UpdateAccounts) -> (r: Vec<Pubkey>)
    ensures
        r@ == seq![a.authority] + opt(p.delegate_record) + opt(p.token) + seq![a.mint, a.metadata] + opt(p.edition)
            + seq![a.payer, a.system_program, a.sysvar_instructions] + opt(p.authorization_rules_program)
            + opt(p.authorization_rules),
{
    let mut v: Vec<Pubkey> = Vec::new();
    v.push(a.authority);
    push_opt(&mut v, p.delegate_record);
    push_opt(&mut v, p.token);
    v.push(a.mint);
    v.push(a.metadata);
    push_opt(&mut v, p.edition);
    v.push(a.payer);
    v.push(a.system_program);
    v.push(a.sysvar_instructions);
    push_opt(&mut v, p.authorization_rules_program);
    push_opt(&mut v, p.authorization_rules);
    assert(v@ =~= seq![a.authority] + opt(p.delegate_record) + opt(p.token) + seq![a.mint, a.metadata] + opt(p.edition)
        + seq![a.payer, a.system_program, a.sysvar_instructions] + opt(p.authorization_rules_program)
        + opt(p.authorization_rules));
    v
}

/// The fixed accounts of a freeze (and of a Metaplex lock).
#[derive(Debug, Clone, Copy)]
pub struct FreezeNft {
    pub authority: Pubkey,
    pub payer: Pubkey,
    pub token_owner: Pubkey,
    pub token: Pubkey,
    pub delegate: Pubkey,
    pub mint: Pubkey,
    pub metadata: Pubkey,
    pub edition: Pubkey,
    pub mpl_token_metadata: Pubkey,
    pub system_program: Pubkey,
    pub instructions: Pubkey,
    pub token_program: Pubkey,
    pub ata_program: Pubkey,
}

/// The pNFT accounts of a Metaplex lock.
#[derive(Debug, Clone, Copy)]
pub struct LockAccounts {
    pub token_record: Option<Pubkey>,
    pub authorization_rules: Option<Pubkey>,
    pub authorization_rules_program: Option<Pubkey>,
}

/// Whether metadata names a rule set in its programmable configuration.
pub open spec fn has_rule_set(m: crate::metadata::MetadataFactsView) -> bool {
    m.programmable_config matches Some(Some(_))
}

/// Whether a Metaplex lock stays defined: a programmable NFT comes with its
/// token record, and a rule set with its rules and rules program.
pub open spec fn lock_defined(m: crate::metadata::MetadataFactsView, p: LockAccounts) -> bool {
    &&& m.token_standard == Some(TOKEN_STANDARD_PROGRAMMABLE_NON_FUNGIBLE) ==> p.token_record is Some
    &&& has_rule_set(m) ==> p.authorization_rules is Some && p.authorization_rules_program is Some
}

/// The accounts handed to a Metaplex lock, in order: the delegate locks the
/// token; a programmable NFT adds its token record, and a rule set its rules
/// and rules program.
pub open spec fn lock_account_list(a: FreezeNft, m: crate::metadata::MetadataFactsView, p: LockAccounts) -> Seq<Pubkey> {
    seq![a.delegate, a.token_owner, a.token, a.mint, a.metadata, a.edition, a.payer, a.system_program,
        a.instructions, a.token_program]
        + (if m.token_standard == Some(TOKEN_STANDARD_PROGRAMMABLE_NON_FUNGIBLE) { opt(p.token_record) } else { Seq::empty() })
        + (if has_rule_set(m) { opt(p.authorization_rules) + opt(p.authorization_rules_program) } else { Seq::empty() })
}

/// The accounts handed to a Metaplex lock of the NFT whose metadata account
/// holds `metadata_data` (see `lock_account_list`). Metadata that does not
/// decode is refused; `None` where the program aborts: a programmable NFT
/// without its token record, or a rule set without its rules and rules
/// program (see `lock_defined`).
pub fn metaplex_lock_accounts(a: &FreezeNft, metadata_data: &[u8], p: &LockAccounts) -> (r: Option<Result<Vec<Pubkey>, MarketplaceError>>)
    ensures
        match spec_metadata_facts(metadata_data@) {
            None => r matches Some(Err(MarketplaceError::AccountDataUnreadable)),
            Some(m) => if lock_defined(m, *p) {
                r matches Some(Ok(v)) && v@ == lock_account_list(*a, m, *p)
            } else {
                r is None
            },
        },
{
    let m = match decode_metadata(metadata_data) {
        Some(m) => m,
        None => return Some(Err(MarketplaceError::AccountDataUnreadable)),
    };
    let pnft = match m.token_standard {
        Some(s) => s == TOKEN_STANDARD_PROGRAMMABLE_NON_FUNGIBLE,
        None => false,
    };
    if pnft && p.token_record.is_none() {
        return None;
    }
    let rule_set = match m.programmable_config {
        Some(Some(_)) => true,
        _ => false,
    };
    if rule_set && (p.authorization_rules.is_none() || p.authorization_rules_program.is_none()) {
        return None;
    }
    Some(Ok(lock_accounts_for(a, &m, p)))
}

fn lock_accounts_for(a: &FreezeNft, metadata: &MetadataFacts, p: &LockAccounts) -> (r: Vec<Pubkey>)
    requires
        lock_defined(metadata@, *p),
    ensures
        r@ == seq![a.delegate, a.token_owner, a.token, a.mint, a.metadata, a.edition, a.payer, a.system_program,
            a.instructions, a.token_program]
            + (if metadata@.token_standard == Some(TOKEN_STANDARD_PROGRAMMABLE_NON_FUNGIBLE) { opt(p.token_record) } else { Seq::empty() })
            + (if has_rule_set(metadata@) { opt(p.authorization_rules) + opt(p.authorization_rules_program) } else { Seq::empty() }),
{
    let mut v: Vec<Pubkey> = Vec::new();
    v.push(a.delegate);
    v.push(a.token_owner);
    v.push(a.token);
    v.push(a.mint);
    v.push(a.metadata);
    v.push(a.edition);
    v.push(a.payer);
    v.push(a.system_program);
    v.push(a.instructions);
    v.push(a.token_program);
    let ghost base = v@;
    let pnft = match metadata.token_standard {
        Some(s) => s == TOKEN_STANDARD_PROGRAMMABLE_NON_FUNGIBLE,
        None => false,
    };
    if pnft {
        push_opt(&mut v, p.token_record);
    }
    let ghost mid = v@;
    let rule_set = match metadata.programmable_config {
        Some(Some(_)) => true,
        _ => false,
    };
    if rule_set {
        push_opt(&mut v, p.authorization_rules);
        push_opt(&mut v, p.authorization_rules_program);
    }
    assert(base =~= seq![a.delegate, a.token_owner, a.token, a.mint, a.metadata, a.edition, a.payer, a.system_program,
        a.instructions, a.token_program]);
    assert(mid =~= base + (if metadata@.token_standard == Some(TOKEN_STANDARD_PROGRAMMABLE_NON_FUNGIBLE) { opt(p.token_record) } else { Seq::empty() }));
    assert(v@ =~= mid + (if has_rule_set(metadata@) { opt(p.authorization_rules) + opt(p.authorization_rules_program) } else { Seq::empty() }));
    v
}


/// The accounts of a delegate.
#[derive(Debug, Clone, Copy)]
pub struct DelegateNft {
    pub token: Pubkey,
    pub delegate: Pubkey,
    pub metadata: Pubkey,
    pub mint: Pubkey,
    pub authority: Pubkey,
    pub payer: Pubkey,
    pub token_program: Pubkey,
    pub system_program: Pubkey,
    pub sysvar_instructions: Pubkey,
}

impl DelegateNft {
    /// The accounts of a delegate taken from those of a freeze.
    pub fn from_freeze(freeze: FreezeNft) -> (d: DelegateNft)
        ensures
            d.token == freeze.token,
            d.delegate == freeze.delegate,
            d.metadata == freeze.metadata,
            d.mint == freeze.mint,
            d.authority == freeze.authority,
            d.payer == freeze.payer,
            d.token_program == freeze.token_program,
            d.system_program == freeze.system_program,
            d.sysvar_instructions == freeze.instructions,
    {
        DelegateNft {
            token: freeze.token,
            delegate: freeze.delegate,
            metadata: freeze.metadata,
            mint: freeze.mint,
            authority: freeze.authority,
            payer: freeze.payer,
            token_program: freeze.token_program,
            system_program: freeze.system_program,
            sysvar_instructions: freeze.instructions,
        }
    }
}

} // verus!
