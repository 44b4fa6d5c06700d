use vstd::prelude::*;

use spl_token_2022::extension::BaseStateWithExtensions;

use crate::keys::Pubkey;

verus! {

/// A creator of an NFT and its share of the royalties, in percent.
#[derive(Debug, Clone, Copy)]
pub struct CreatorWithShare {
    pub address: Pubkey,
    pub share: u8,
}

/// What the marketplace reads from a Metaplex metadata account.
pub struct MetadataFacts {
    /// Royalty rate, in basis points of the sale price.
    pub seller_fee_basis_points: u16,
    /// The creators and their shares, if the metadata lists any.
    pub creators: Option<Vec<CreatorWithShare>>,
    /// The token standard, by its position in Metaplex's `TokenStandard`.
    pub token_standard: Option<u8>,
    /// The programmable configuration, if any: the rule set it names.
    pub programmable_config: Option<Option<Pubkey>>,
}

/// The value of a `MetadataFacts`.
pub struct MetadataFactsView {
    pub seller_fee_basis_points: u16,
    pub creators: Option<Seq<CreatorWithShare>>,
    pub token_standard: Option<u8>,
    pub programmable_config: Option<Option<Pubkey>>,
}

impl View for MetadataFacts {
    type V = MetadataFactsView;

    open spec fn view(&self) -> MetadataFactsView {
        MetadataFactsView {
            seller_fee_basis_points: self.seller_fee_basis_points,
            creators: match self.creators {
                Some(v) => Some(v@),
                None => None,
            },
            token_standard: self.token_standard,
            programmable_config: self.programmable_config,
        }
    }
}

/// Position of `ProgrammableNonFungible` in Metaplex's `TokenStandard`.
pub const TOKEN_STANDARD_PROGRAMMABLE_NON_FUNGIBLE: u8 = 4;

/// The first byte of a Metaplex metadata account (`Key::MetadataV1`).
pub const METADATA_V1_KEY: u8 = 4;

/// What `Metadata::safe_deserialize` of `mpl_token_metadata` gives for the
/// bytes of an account, taken to the fields the marketplace reads; `None`
/// where it refuses them.
pub uninterp spec fn spec_metadata_facts(data: Seq<u8>) -> Option<MetadataFactsView>;

/// Calls `Metadata::safe_deserialize` of `mpl_token_metadata` and keeps the
/// royalty rate, the creators (address and share), the token standard and the
/// programmable configuration. Trusted: the result is the name
/// `spec_metadata_facts` of the bytes, and bytes that are empty or do not
/// start with the `MetadataV1` key are refused (the source checks that first).
/// Which other bytes decode, and to what, is not stated.
#[verifier::external_body]
pub(crate) fn decode_metadata(data: &[u8]) -> (r: Option<MetadataFacts>)
    ensures
        match spec_metadata_facts(data@) {
            Some(v) => r matches Some(m) && m@ == v,
            None => r is None,
        },
        (data@.len() == 0 || data@[0] != METADATA_V1_KEY) ==> r is None,
{
    let m = mpl_token_metadata::accounts::Metadata::safe_deserialize(data).ok()?;
    let creators = m.creators.map(|cs| cs.iter().map(|c| CreatorWithShare { address: c.address.to_bytes(), share: c.share }).collect());
    let config = m.programmable_config.map(|c| match c {
        mpl_token_metadata::types::ProgrammableConfig::V1 { rule_set } => rule_set.map(|k| k.to_bytes()),
    });
    Some(MetadataFacts { seller_fee_basis_points: m.seller_fee_basis_points, creators, token_standard: m.token_standard.map(|t| t as u8), programmable_config: config })
}

/// The key-value pairs of a metadata extension, by their text.
pub open spec fn pairs_view(v: Seq<(String, String)>) -> Seq<(Seq<char>, Seq<char>)> {
    Seq::new(v.len(), |i: int| (v[i].0@, v[i].1@))
}

/// What unpacking a Token-2022 mint and reading its `TokenMetadata` extension
/// gives for the bytes of the mint account: its additional key-value pairs, or
/// `None` where either step refuses.
pub uninterp spec fn spec_mint_additional_metadata(data: Seq<u8>) -> Option<Seq<(Seq<char>, Seq<char>)>>;

/// Calls `StateWithExtensions::<Mint>::unpack` of `spl_token_2022`, then
/// `get_variable_len_extension::<TokenMetadata>` on it, and keeps the
/// additional metadata. Trusted: success and the pairs are the name
/// `spec_mint_additional_metadata` of the bytes. Which error comes back is not
/// stated.
#[verifier::external_body]
pub fn get_mint_metadata(data: &[u8]) -> (r: Result<Vec<(String, String)>, solana_program::program_error::ProgramError>)
    ensures
        match spec_mint_additional_metadata(data@) {
            Some(pairs) => r matches Ok(v) && pairs_view(v@) == pairs,
            None => r is Err,
        },
{
    let state = spl_token_2022::extension::StateWithExtensions::<spl_token_2022::state::Mint>::unpack(data)?;
    let metadata = state.get_variable_len_extension::<spl_token_metadata_interface::state::TokenMetadata>()?;
    Ok(metadata.additional_metadata)
}

/// Whether metadata marks a programmable NFT.
pub open spec fn is_pnft(m: MetadataFactsView) -> bool {
    m.token_standard == Some(TOKEN_STANDARD_PROGRAMMABLE_NON_FUNGIBLE)
}

/// Whether metadata marks a programmable NFT.
pub fn get_is_pnft(metadata: &MetadataFacts) -> (r: bool)
    ensures
        r == is_pnft(metadata@),
{
    match metadata.token_standard {
        Some(s) => s == TOKEN_STANDARD_PROGRAMMABLE_NON_FUNGIBLE,
        None => false,
    }
}

/// Whether the bytes of an account hold the Metaplex metadata of a
/// programmable NFT.
pub open spec fn is_metaplex_nft(data: Seq<u8>) -> bool {
    spec_metadata_facts(data) matches Some(m) && is_pnft(m)
}

/// Whether an account holds the Metaplex metadata of a programmable NFT: it
/// decodes, and its token standard is `ProgrammableNonFungible`.
pub fn get_is_metaplex_nft(data: &[u8]) -> (r: bool)
    ensures
        r == (spec_metadata_facts(data@) matches Some(m) && is_pnft(m)),
{
    match decode_metadata(data) {
        Some(m) => get_is_pnft(&m),
        None => false,
    }
}

} // verus!
