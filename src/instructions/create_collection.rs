//! Creating a collection: its configuration record and its anchor token.
use crate::address::{
    Address, auth_address_of, auth_seed_list, auth_seeds, config_address_of, config_seed_list,
    config_seeds, derives, find_auth_address, find_config_address, seeds_view, signer_seeds,
};
use crate::error::{CustomError, ProgramError};
use crate::instructions::creator::Creator;
use crate::states::codec::from;
use crate::states::config::{CollectionConfig, ConfigView, SFBP_LIMIT, lemma_parsed_record_encodable,
    parse_record,
    record_bytes,
};
use vstd::prelude::*;

verus! {

/// The size of the storage allocated for a configuration record.
pub const CONFIG_SPACE: usize = 1400;

/// What the creation flow reads of the accounts handed to it.
pub struct CreateAccounts {
    /// Whether the payer signed the transaction.
    pub payer_signed: bool,
    /// The configuration record's address and its current storage.
    pub config: Address,
    pub config_data: Vec<u8>,
    /// The collection's signing authority.
    pub authority: Address,
}

/// The allocation of the record's storage: `space` bytes owned by `owner`,
/// signed for with `signer_seeds`.
pub struct Allocation {
    pub space: usize,
    pub owner: Address,
    pub signer_seeds: Vec<Vec<u8>>,
}

/// The calls into the metadata program that create the anchor token and mint
/// its one unit to the authority, both signed with `signer_seeds`.
pub struct AnchorToken {
    pub name: String,
    pub uri: String,
    pub symbol: String,
    pub seller_fee_basis_points: u16,
    pub is_mutable: bool,
    pub creators: Vec<Creator>,
    pub collection_size: u64,
    pub amount: u64,
    pub signer_seeds: Vec<Vec<u8>>,
}

/// What a creation does, in order: allocate the storage and issue the anchor
/// token where the storage was empty, then store `config_data`, which holds
/// `record`.
pub struct CreatePlan {
    pub allocation: Option<Allocation>,
    pub anchor: Option<AnchorToken>,
    pub record: CollectionConfig,
    pub config_data: Vec<u8>,
}

/// The record that the payload `data` holds, where it holds exactly one.
pub open spec fn payload_record(data: Seq<u8>) -> Option<ConfigView> {
    match parse_record(data) {
        Some((c, rest)) => if rest.len() == 0 {
            Some(c)
        } else {
            None
        },
        None => None,
    }
}

/// The storage that the record is written into: fresh zeroed storage where
/// none was allocated yet.
pub open spec fn storage_before(data: Seq<u8>) -> Seq<u8> {
    if data.len() == 0 {
        Seq::new(CONFIG_SPACE as nat, |i: int| 0u8)
    } else {
        data
    }
}

/// The error of a creation, in the order in which the checks are made, or
/// `None` where it goes ahead.
pub open spec fn create_error(program: Seq<u8>, accounts: CreateAccounts, data: Seq<u8>) -> Option<
    ProgramError,
> {
    match payload_record(data) {
        None => Some(ProgramError::InvalidInstructionData),
        Some(c) => if !accounts.payer_signed {
            Some(ProgramError::MissingRequiredSignature)
        } else if !derives(config_address_of(c.name, program), accounts.config@) {
            Some(ProgramError::of(CustomError::InvalidConfigAccount))
        } else if accounts.config_data@.len() == 0 && !derives(
            auth_address_of(c.name, program),
            accounts.authority@,
        ) {
            Some(ProgramError::of(CustomError::AuthKeyFailure))
        } else if c.sfbp >= SFBP_LIMIT {
            Some(ProgramError::of(CustomError::InvalidSfbp))
        } else if record_bytes(c).len() > storage_before(accounts.config_data@).len() {
            Some(ProgramError::InvalidInstructionData)
        } else {
            None
        },
    }
}

/// The anchor token that the collection `c` is issued with.
pub open spec fn is_anchor_token(t: AnchorToken, c: ConfigView, authority: Seq<u8>) -> bool {
    &&& t.name@ == c.name
    &&& t.uri@ == c.uri + "collection.json"@
    &&& t.symbol@ == c.symbol
    &&& t.seller_fee_basis_points == c.sfbp
    &&& t.is_mutable
    &&& t.creators@.len() == 1
    &&& t.creators@[0].is(authority, true, 100)
    &&& t.collection_size == 1
    &&& t.amount == 1
}

/// Checks a creation against the payer's signature, the derived addresses and
/// the royalty rate, and gives what it does.
pub fn process(program_id: &Address, accounts: &CreateAccounts, data: &[u8]) -> (r: Result<
    CreatePlan,
    ProgramError,
>)
    ensures
        r is Err <==> create_error(program_id@, *accounts, data@) is Some,
        r matches Err(e) ==> create_error(program_id@, *accounts, data@) == Some(e),
        r matches Ok(plan) ==> {
            let c = payload_record(data@)->Some_0;
            let fresh = accounts.config_data@.len() == 0;
            &&& plan.record@ == c
            &&& plan.config_data@ == record_bytes(c) + storage_before(
                accounts.config_data@,
            ).subrange(record_bytes(c).len() as int, storage_before(accounts.config_data@).len() as int)
            &&& (plan.allocation is Some <==> fresh)
            &&& (plan.anchor is Some <==> fresh)
            &&& plan.allocation matches Some(a) ==> {
                &&& a.space == CONFIG_SPACE
                &&& a.owner@ == program_id@
                &&& config_address_of(c.name, program_id@) matches Some((_, bump))
                &&& seeds_view(a.signer_seeds@) == config_seeds(c.name, program_id@).push(seq![bump])
            }
            &&& plan.anchor matches Some(t) ==> {
                &&& is_anchor_token(t, c, accounts.authority@)
                &&& auth_address_of(c.name, program_id@) matches Some((_, bump))
                &&& seeds_view(t.signer_seeds@) == auth_seeds(c.name, program_id@).push(seq![bump])
            }
        },
{
    let input = match CollectionConfig::decode_from(data, 0) {
        Some((c, end)) => {
            assert(from(data@, 0) =~= data@);
            proof {
                lemma_parsed_record_encodable(data@);
            }
            if end != data.len() {
                return Err(ProgramError::InvalidInstructionData);
            }
            c
        },
        None => {
            assert(from(data@, 0) =~= data@);
            return Err(ProgramError::InvalidInstructionData);
        },
    };
    if !accounts.payer_signed {
        return Err(ProgramError::MissingRequiredSignature);
    }
    let config_bump = match find_config_address(&input.name, program_id) {
        Some((key, bump)) => {
            if !key.same(&accounts.config) {
                return Err(ProgramError::from(CustomError::InvalidConfigAccount));
            }
            bump
        },
        None => return Err(ProgramError::from(CustomError::InvalidConfigAccount)),
    };
    let mut allocation: Option<Allocation> = None;
    let mut anchor: Option<AnchorToken> = None;
    let mut storage: Vec<u8>;
    if accounts.config_data.len() == 0 {
        allocation = Some(
            Allocation {
                space: CONFIG_SPACE,
                owner: *program_id,
                signer_seeds: signer_seeds(config_seed_list(&input.name, program_id), config_bump),
            },
        );
        let auth_bump = match find_auth_address(&input.name, program_id) {
            Some((key, bump)) => {
                if !key.same(&accounts.authority) {
                    return Err(ProgramError::from(CustomError::AuthKeyFailure));
                }
                bump
            },
            None => return Err(ProgramError::from(CustomError::AuthKeyFailure)),
        };
        let mut uri = input.uri.clone();
        uri.append("collection.json");
        let mut creators: Vec<Creator> = Vec::new();
        creators.push(Creator { address: accounts.authority, verified: true, share: 100 });
        anchor = Some(
            AnchorToken {
                name: input.name.clone(),
                uri,
                symbol: input.symbol.clone(),
                seller_fee_basis_points: input.sfbp,
                is_mutable: true,
                creators,
                collection_size: 1,
                amount: 1,
                signer_seeds: signer_seeds(auth_seed_list(&input.name, program_id), auth_bump),
            },
        );
        storage = vec![0u8; CONFIG_SPACE];
        assert(storage@ =~= storage_before(accounts.config_data@));
    } else {
        storage = accounts.config_data.clone();
    }
    let record = match CollectionConfig::create(input) {
        Ok(c) => c,
        Err(e) => return Err(ProgramError::from(e)),
    };
    match record.save(&mut storage) {
        Ok(()) => {},
        Err(_) => return Err(ProgramError::InvalidInstructionData),
    }
    Ok(CreatePlan { allocation, anchor, record, config_data: storage })
}

} // verus!

verus! {

/// A record whose royalty rate is 100% or more is never created: the
/// creation fails, and fails with `InvalidSfbp` once the signature and the
/// derived addresses are in order.
pub proof fn lemma_invalid_sfbp_rejected(program: Seq<u8>, accounts: CreateAccounts, data: Seq<u8>)
    requires
        payload_record(data) matches Some(c) && c.sfbp >= SFBP_LIMIT,
    ensures
        create_error(program, accounts, data) is Some,
        ({
            let c = payload_record(data)->Some_0;
            accounts.payer_signed && derives(config_address_of(c.name, program), accounts.config@)
                && (accounts.config_data@.len() == 0 ==> derives(
                auth_address_of(c.name, program),
                accounts.authority@,
            )) ==> create_error(program, accounts, data) == Some(
                ProgramError::of(CustomError::InvalidSfbp),
            )
        }),
{
}

/// A creation whose configuration address is not the one derived from the
/// record's name fails with `InvalidConfigAccount`, before any call is made.
pub proof fn lemma_config_mismatch_rejected(
    program: Seq<u8>,
    accounts: CreateAccounts,
    data: Seq<u8>,
)
    requires
        payload_record(data) matches Some(c) && !derives(
            config_address_of(c.name, program),
            accounts.config@,
        ),
        accounts.payer_signed,
    ensures
        create_error(program, accounts, data) == Some(
            ProgramError::of(CustomError::InvalidConfigAccount),
        ),
{
}

/// A creation that the payer did not sign fails with a missing signature, and
/// nothing is allocated, issued or stored.
pub proof fn lemma_unsigned_rejected(program: Seq<u8>, accounts: CreateAccounts, data: Seq<u8>)
    requires
        payload_record(data) is Some,
        !accounts.payer_signed,
    ensures
        create_error(program, accounts, data) == Some(ProgramError::MissingRequiredSignature),
{
}

} // verus!
