//! Instructions as plain values: the program that runs one, the accounts it reads
//! or writes in the order the program expects, and its payload.
use crate::address::Address;
use crate::encoding::push_bytes;
use vstd::prelude::*;

verus! {

/// One account reference of an instruction.
#[derive(Clone, Copy, PartialEq, Eq, Debug)]
pub struct AccountMeta {
    pub pubkey: Address,
    pub is_signer: bool,
    pub is_writable: bool,
}

impl AccountMeta {
    /// An account that the instruction may write.
    pub open spec fn spec_writable(pubkey: Address, is_signer: bool) -> AccountMeta {
        AccountMeta { pubkey, is_signer, is_writable: true }
    }

    /// An account that the instruction only reads.
    pub open spec fn spec_readonly(pubkey: Address, is_signer: bool) -> AccountMeta {
        AccountMeta { pubkey, is_signer, is_writable: false }
    }

    pub fn writable(pubkey: Address, is_signer: bool) -> (r: AccountMeta)
        ensures
            r == AccountMeta::spec_writable(pubkey, is_signer),
    {
        AccountMeta { pubkey, is_signer, is_writable: true }
    }

    pub fn readonly(pubkey: Address, is_signer: bool) -> (r: AccountMeta)
        ensures
            r == AccountMeta::spec_readonly(pubkey, is_signer),
    {
        AccountMeta { pubkey, is_signer, is_writable: false }
    }
}

/// One instruction: which program runs it, on which accounts, with which payload.
#[derive(Clone, Debug)]
pub struct Instruction {
    pub program_id: Address,
    pub accounts: Vec<AccountMeta>,
    pub data: Vec<u8>,
}

/// Whether `ix` runs `program_id` on exactly `accounts` with exactly `data`.
pub open spec fn is_instruction(ix: Instruction, program_id: Address, accounts: Seq<AccountMeta>, data: Seq<u8>) -> bool {
    &&& ix.program_id == program_id
    &&& ix.accounts@ == accounts
    &&& ix.data@ == data
}

/// The payload made of an 8-byte instruction discriminator alone.
pub fn tag_only(tag: [u8; 8]) -> (r: Vec<u8>)
    ensures
        r@ == tag@,
{
    let mut data: Vec<u8> = Vec::new();
    push_bytes(&mut data, &tag);
    assert(data@ =~= tag@);
    data
}

} // verus!
