//! Minting a compressed member into an existing collection.
use crate::address::{
    Address, auth_address_of, auth_seed_list, auth_seeds, config_address_of, find_auth_address,
    derives, find_config_address, instructions_sysvar_id, instructions_sysvar_key, seeds_view,
    signer_seeds,
};
use crate::error::{CustomError, ProgramError};
use crate::instructions::creator::Creator;
use crate::states::codec::{from, parse_text, read_text};
use crate::states::config::{CollectionConfig, ConfigView, parse_record};
use vstd::prelude::*;

verus! {

/// The payload of a mint instruction: the new member's metadata.
#[derive(Debug)]
pub struct MintArgs {
    pub name: String,
    pub uri: String,
    pub symbol: String,
}

/// The stored form of a mint payload: name, uri, symbol.
pub open spec fn parse_mint_args(b: Seq<u8>) -> Option<(Seq<char>, Seq<char>, Seq<char>)> {
    match parse_text(b) {
        None => None,
        Some((name, b1)) => match parse_text(b1) {
            None => None,
            Some((uri, b2)) => match parse_text(b2) {
                None => None,
                Some((symbol, _)) => Some((name, uri, symbol)),
            },
        },
    }
}

impl MintArgs {
    /// Reads a mint payload from `b`, from `pos` on; bytes after it are ignored.
    pub fn decode_from(b: &[u8], pos: usize) -> (r: Option<MintArgs>)
        requires
            pos <= b@.len(),
        ensures
            match r {
                Some(a) => parse_mint_args(from(b@, pos as int)) == Some(
                    (a.name@, a.uri@, a.symbol@),
                ),
                None => parse_mint_args(from(b@, pos as int)) is None,
            },
    {
        let (name, p1) = match read_text(b, pos) {
            Some(x) => x,
            None => return None,
        };
        let (uri, p2) = match read_text(b, p1) {
            Some(x) => x,
            None => return None,
        };
        let (symbol, _p3) = match read_text(b, p2) {
            Some(x) => x,
            None => return None,
        };
        Some(MintArgs { name, uri, symbol })
    }
}

/// What the mint flow reads of the accounts handed to it.
pub struct MintAccounts {
    /// The payer, who also receives the member.
    pub payer: Address,
    /// The compressed tree's configuration and the tree itself.
    pub tree_config: Address,
    pub merkle_tree: Address,
    /// The configuration record's address and its stored bytes.
    pub config: Address,
    pub config_data: Vec<u8>,
    /// The collection's signing authority.
    pub collection_authority: Address,
    /// The account handed in as the instructions sysvar.
    pub instructions_sysvar: Address,
    /// The collection's anchor token.
    pub collection_mint: Address,
}

/// The metadata of a new member, as handed to the compressed-token program.
pub struct MemberMetadata {
    pub name: String,
    pub symbol: String,
    pub uri: String,
    pub creators: Vec<Creator>,
    pub seller_fee_basis_points: u16,
    pub primary_sale_happened: bool,
    pub is_mutable: bool,
    pub edition_nonce: Option<u8>,
    /// The collection the member joins, and whether that membership is verified.
    pub collection: Address,
    pub collection_verified: bool,
}

/// An account handed to a call beyond those the call names, with its flags.
#[derive(Clone, Copy, Debug)]
pub struct ExtraAccount {
    pub address: Address,
    pub is_writable: bool,
    pub is_signer: bool,
}

/// The call into the compressed-token program that mints the member into the
/// tree, with the accounts in each role, signed by the collection's authority
/// with `signer_seeds`.
pub struct MintPlan {
    pub tree_config: Address,
    pub merkle_tree: Address,
    pub leaf_owner: Address,
    pub leaf_delegate: Address,
    pub payer: Address,
    pub tree_creator_or_delegate: Address,
    pub collection_authority: Address,
    pub collection_mint: Address,
    pub extra_account: ExtraAccount,
    pub metadata: MemberMetadata,
    pub signer_seeds: Vec<Vec<u8>>,
}

/// The accounts of the mint call: the payer owns and delegates the new leaf
/// and pays for it, and the authority is also handed over as a writable signer.
pub open spec fn has_mint_accounts(plan: MintPlan, accounts: MintAccounts) -> bool {
    &&& plan.tree_config@ == accounts.tree_config@
    &&& plan.merkle_tree@ == accounts.merkle_tree@
    &&& plan.leaf_owner@ == accounts.payer@
    &&& plan.leaf_delegate@ == accounts.payer@
    &&& plan.payer@ == accounts.payer@
    &&& plan.tree_creator_or_delegate@ == accounts.payer@
    &&& plan.collection_authority@ == accounts.collection_authority@
    &&& plan.collection_mint@ == accounts.collection_mint@
    &&& plan.extra_account.address@ == accounts.collection_authority@
    &&& plan.extra_account.is_writable
    &&& plan.extra_account.is_signer
}

/// The error of a mint, in the order in which the checks are made, or `None`
/// where the mint goes ahead.
pub open spec fn mint_error(program: Seq<u8>, accounts: MintAccounts) -> Option<ProgramError> {
    match parse_record(accounts.config_data@) {
        None => Some(ProgramError::InvalidAccountData),
        Some((c, _)) => if accounts.instructions_sysvar@ != instructions_sysvar_key() {
            Some(ProgramError::InvalidAccountData)
        } else if !derives(config_address_of(c.name, program), accounts.config@) {
            Some(ProgramError::InvalidAccountData)
        } else if !derives(auth_address_of(c.name, program), accounts.collection_authority@) {
            Some(ProgramError::of(CustomError::AuthKeyFailure))
        } else {
            None
        },
    }
}

/// The member's metadata that a mint under record `c` asks for.
pub open spec fn is_member_metadata(
    m: MemberMetadata,
    args: MintArgs,
    c: ConfigView,
    authority: Seq<u8>,
    collection: Seq<u8>,
) -> bool {
    &&& m.name@ == args.name@
    &&& m.symbol@ == args.symbol@
    &&& m.uri@ == args.uri@
    &&& m.creators@.len() == 2
    &&& m.creators@[0].is(authority, true, 0)
    &&& m.creators@[1].is(c.creator_1, false, c.creator_1_cut)
    &&& m.seller_fee_basis_points == c.sfbp
    &&& !m.primary_sale_happened
    &&& m.is_mutable
    &&& m.edition_nonce == Some(0u8)
    &&& m.collection@ == collection
    &&& m.collection_verified
}

/// Checks a mint against the stored record and the derived addresses, and
/// gives the call that mints the member.
pub fn process(program_id: &Address, accounts: &MintAccounts, input: MintArgs) -> (r: Result<
    MintPlan,
    ProgramError,
>)
    ensures
        r is Err <==> mint_error(program_id@, *accounts) is Some,
        r matches Err(e) ==> mint_error(program_id@, *accounts) == Some(e),
        r matches Ok(plan) ==> {
            let c = parse_record(accounts.config_data@)->Some_0.0;
            &&& has_mint_accounts(plan, *accounts)
            &&& is_member_metadata(
                plan.metadata,
                input,
                c,
                accounts.collection_authority@,
                accounts.collection_mint@,
            )
            &&& auth_address_of(c.name, program_id@) matches Some((_, bump))
            &&& seeds_view(plan.signer_seeds@) == auth_seeds(c.name, program_id@).push(seq![bump])
        },
{
    let (config, _end) = match CollectionConfig::decode_from(accounts.config_data.as_slice(), 0) {
        Some(x) => x,
        None => {
            assert(from(accounts.config_data@, 0) =~= accounts.config_data@);
            return Err(ProgramError::InvalidAccountData);
        },
    };
    assert(from(accounts.config_data@, 0) =~= accounts.config_data@);
    if !accounts.instructions_sysvar.same(&instructions_sysvar_id()) {
        return Err(ProgramError::InvalidAccountData);
    }
    match find_config_address(&config.name, program_id) {
        Some((key, _bump)) => {
            if !key.same(&accounts.config) {
                return Err(ProgramError::InvalidAccountData);
            }
        },
        None => return Err(ProgramError::InvalidAccountData),
    }
    let auth_bump = match find_auth_address(&config.name, program_id) {
        Some((key, bump)) => {
            if !key.same(&accounts.collection_authority) {
                return Err(ProgramError::from(CustomError::AuthKeyFailure));
            }
            bump
        },
        None => return Err(ProgramError::from(CustomError::AuthKeyFailure)),
    };
    let seeds = signer_seeds(auth_seed_list(&config.name, program_id), auth_bump);
    let mut creators: Vec<Creator> = Vec::new();
    creators.push(Creator { address: accounts.collection_authority, verified: true, share: 0 });
    creators.push(Creator { address: config.creator_1, verified: false, share: config.creator_1_cut });
    let metadata = MemberMetadata {
        name: input.name,
        symbol: input.symbol,
        uri: input.uri,
        creators,
        seller_fee_basis_points: config.sfbp,
        primary_sale_happened: false,
        is_mutable: true,
        edition_nonce: Some(0u8),
        collection: accounts.collection_mint,
        collection_verified: true,
    };
    Ok(
        MintPlan {
            tree_config: accounts.tree_config,
            merkle_tree: accounts.merkle_tree,
            leaf_owner: accounts.payer,
            leaf_delegate: accounts.payer,
            payer: accounts.payer,
            tree_creator_or_delegate: accounts.payer,
            collection_authority: accounts.collection_authority,
            collection_mint: accounts.collection_mint,
            extra_account: ExtraAccount {
                address: accounts.collection_authority,
                is_writable: true,
                is_signer: true,
            },
            metadata,
            signer_seeds: seeds,
        },
    )
}

} // verus!

verus! {

/// A mint whose authority is not the one derived from the stored record's
/// name fails with `AuthKeyFailure`, and no member is minted.
pub proof fn lemma_authority_mismatch_rejected(program: Seq<u8>, accounts: MintAccounts)
    requires
        parse_record(accounts.config_data@) matches Some((c, _)) && !derives(
            auth_address_of(c.name, program),
            accounts.collection_authority@,
        ),
        accounts.instructions_sysvar@ == instructions_sysvar_key(),
        ({
            let c = parse_record(accounts.config_data@)->Some_0.0;
            derives(config_address_of(c.name, program), accounts.config@)
        }),
    ensures
        mint_error(program, accounts) == Some(ProgramError::of(CustomError::AuthKeyFailure)),
{
}

} // verus!
