//! The leading byte of an instruction selects the operation.
use crate::error::ProgramError;
use crate::instructions::mint::{MintArgs, parse_mint_args};
use crate::states::codec::from;
use vstd::prelude::*;
use vstd::slice::{slice_subrange, slice_to_vec};

verus! {

pub const CREATE_COLLECTION: u8 = 1;

pub const MINT: u8 = 2;

/// An instruction, with its payload: the raw record for a creation, the
/// member's metadata for a mint.
pub enum Instruction {
    CreateCollection(Vec<u8>),
    Mint(MintArgs),
}

/// Splits an instruction into its operation and payload.
pub fn decode_instruction(data: &[u8]) -> (r: Result<Instruction, ProgramError>)
    ensures
        data@.len() == 0 ==> (r matches Err(e) && e == ProgramError::InvalidInstructionData),
        data@.len() > 0 && data@[0] == CREATE_COLLECTION ==> (r matches Ok(
            Instruction::CreateCollection(p),
        ) && p@ == from(data@, 1)),
        data@.len() > 0 && data@[0] == MINT ==> match parse_mint_args(from(data@, 1)) {
            Some((name, uri, symbol)) => r matches Ok(Instruction::Mint(a)) && a.name@ == name
                && a.uri@ == uri && a.symbol@ == symbol,
            None => r matches Err(e) && e == ProgramError::InvalidInstructionData,
        },
        data@.len() > 0 && data@[0] != CREATE_COLLECTION && data@[0] != MINT ==> (r matches Err(e)
            && e == ProgramError::InvalidArgument),
{
    if data.len() == 0 {
        return Err(ProgramError::InvalidInstructionData);
    }
    let op = data[0];
    if op == CREATE_COLLECTION {
        let payload = slice_to_vec(slice_subrange(data, 1, data.len()));
        Ok(Instruction::CreateCollection(payload))
    } else if op == MINT {
        match MintArgs::decode_from(data, 1) {
            Some(a) => Ok(Instruction::Mint(a)),
            None => Err(ProgramError::InvalidInstructionData),
        }
    } else {
        Err(ProgramError::InvalidArgument)
    }
}

} // verus!
