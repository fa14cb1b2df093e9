//! Instructions for the access-controller program, which keeps an owner, a proposed
//! owner and a list of authorized addresses in one state account, and decoding of
//! that account.
use crate::address::Address;
use crate::encoding::{le_value, push_bytes, read_u64_le};
use crate::instruction::{is_instruction, tag_only, AccountMeta, Instruction};
use vstd::prelude::*;

verus! {

/// Size of the type tag that starts every account.
pub const ACCOUNT_DISCRIMINATOR_SIZE: usize = 8;

/// How many authorized addresses the access list can hold.
pub const ACCESS_LIST_CAPACITY: usize = 64;

/// Offset of the owner, after the type tag.
pub const OWNER_OFFSET: usize = 8;

/// Offset of the proposed owner.
pub const PROPOSED_OWNER_OFFSET: usize = 40;

/// Offset of the access list's address slots.
pub const ACCESS_LIST_OFFSET: usize = 72;

/// Offset of the access list's length, a little-endian `u64` after the slots.
pub const ACCESS_LIST_LEN_OFFSET: usize = ACCESS_LIST_OFFSET + ACCESS_LIST_CAPACITY * 32;

/// Size of the state schema: owner, proposed owner, the address slots and their count.
pub const ACCESS_CONTROLLER_SCHEMA_SIZE: usize = 32 + 32 + ACCESS_LIST_CAPACITY * 32 + 8;

/// Bytes the ledger must allocate for the state account: type tag plus schema.
pub const ACCESS_CONTROLLER_ACCOUNT_SIZE: usize = ACCOUNT_DISCRIMINATOR_SIZE + ACCESS_CONTROLLER_SCHEMA_SIZE;

/// Type tag of the state account.
pub open spec fn state_tag() -> [u8; 8] {
    [143, 45, 12, 204, 220, 20, 114, 87]
}

pub open spec fn initialize_tag() -> [u8; 8] {
    [175, 175, 109, 31, 13, 152, 155, 237]
}

pub open spec fn add_access_tag() -> [u8; 8] {
    [151, 189, 105, 24, 113, 60, 99, 138]
}

pub open spec fn remove_access_tag() -> [u8; 8] {
    [92, 172, 70, 124, 83, 45, 88, 22]
}

pub open spec fn transfer_ownership_tag() -> [u8; 8] {
    [65, 177, 215, 73, 53, 45, 99, 47]
}

pub open spec fn accept_ownership_tag() -> [u8; 8] {
    [172, 23, 43, 13, 238, 213, 85, 150]
}

/// The decoded state account.
#[derive(Clone, Debug)]
pub struct AccessControllerState {
    pub owner: Address,
    /// The owner proposed by a pending transfer; stored as the all-zero address when none.
    pub proposed_owner: Option<Address>,
    pub access_list: Vec<Address>,
}

/// Why account bytes do not decode as the state account.
#[derive(Clone, Copy, PartialEq, Eq, Debug)]
pub enum StateDecodeError {
    /// Fewer bytes than the type tag and the schema take.
    AccountTooShort,
    /// The first eight bytes are not the state account's type tag.
    DiscriminatorMismatch,
    /// The stored length of the access list exceeds its capacity.
    AccessListTooLong,
}

/// The stored length of the access list.
pub open spec fn stored_list_len(data: Seq<u8>) -> nat {
    le_value(data.subrange(ACCESS_LIST_LEN_OFFSET as int, ACCESS_LIST_LEN_OFFSET + 8))
}

/// Why `data` does not decode, if it does not: checked in this order.
pub open spec fn state_decode_error(data: Seq<u8>) -> Option<StateDecodeError> {
    if data.len() < ACCESS_CONTROLLER_ACCOUNT_SIZE {
        Some(StateDecodeError::AccountTooShort)
    } else if data.subrange(0, 8) != state_tag()@ {
        Some(StateDecodeError::DiscriminatorMismatch)
    } else if stored_list_len(data) > ACCESS_LIST_CAPACITY {
        Some(StateDecodeError::AccessListTooLong)
    } else {
        None
    }
}

/// A buffer shorter than the state account never decodes: it is rejected as too
/// short, with no partial state.
pub proof fn lemma_short_buffer_never_decodes(data: Seq<u8>)
    requires
        data.len() < ACCESS_CONTROLLER_ACCOUNT_SIZE,
    ensures
        state_decode_error(data) == Some(StateDecodeError::AccountTooShort),
{
}

pub open spec fn all_zero(b: Seq<u8>) -> bool {
    forall|i: int| 0 <= i < b.len() ==> b[i] == 0
}

/// The 32 bytes at `start`.
pub open spec fn address_bytes_at(data: Seq<u8>, start: int) -> Seq<u8> {
    data.subrange(start, start + 32)
}

/// Whether `st` holds exactly the fields laid out in `data`.
pub open spec fn decodes_to(data: Seq<u8>, st: AccessControllerState) -> bool {
    &&& st.owner.bytes@ == address_bytes_at(data, OWNER_OFFSET as int)
    &&& match st.proposed_owner {
        None => all_zero(address_bytes_at(data, PROPOSED_OWNER_OFFSET as int)),
        Some(p) => !all_zero(address_bytes_at(data, PROPOSED_OWNER_OFFSET as int))
            && p.bytes@ == address_bytes_at(data, PROPOSED_OWNER_OFFSET as int),
    }
    &&& st.access_list@.len() == stored_list_len(data)
    &&& forall|i: int|
        0 <= i < st.access_list@.len() ==> #[trigger] st.access_list@[i].bytes@ == address_bytes_at(
            data,
            ACCESS_LIST_OFFSET + 32 * i,
        )
}

/// The address stored at `start..start + 32`.
pub fn read_address(data: &[u8], start: usize) -> (r: Address)
    requires
        start + 32 <= data@.len(),
    ensures
        r.bytes@ == address_bytes_at(data@, start as int),
{
    let n: usize = data.len();
    assert(start + 32 <= n);
    let mut bytes: [u8; 32] = [0u8; 32];
    let mut i: usize = 0;
    while i < 32
        invariant
            0 <= i <= 32,
            start + 32 <= n,
            n == data@.len(),
            forall|j: int| 0 <= j < i ==> bytes@[j] == data@[start + j],
        decreases 32 - i,
    {
        bytes[i] = data[start + i];
        i = i + 1;
    }
    assert(bytes@ =~= address_bytes_at(data@, start as int));
    Address { bytes }
}

/// Whether `data` at `start` holds exactly `expected`.
fn bytes_match(data: &[u8], start: usize, expected: &[u8]) -> (r: bool)
    requires
        start + expected@.len() <= data@.len(),
    ensures
        r == (data@.subrange(start as int, start + expected@.len()) == expected@),
{
    let n: usize = data.len();
    let mut i: usize = 0;
    while i < expected.len()
        invariant
            0 <= i <= expected@.len(),
            start + expected@.len() <= n,
            n == data@.len(),
            forall|j: int| 0 <= j < i ==> data@[start + j] == expected@[j],
        decreases expected@.len() - i,
    {
        if data[start + i] != expected[i] {
            assert(data@.subrange(start as int, start + expected@.len())[i as int] != expected@[i as int]);
            return false;
        }
        i = i + 1;
    }
    assert(data@.subrange(start as int, start + expected@.len()) =~= expected@);
    true
}

fn is_all_zero(b: &[u8]) -> (r: bool)
    ensures
        r == all_zero(b@),
{
    let mut i: usize = 0;
    while i < b.len()
        invariant
            0 <= i <= b@.len(),
            forall|j: int| 0 <= j < i ==> b@[j] == 0,
        decreases b@.len() - i,
    {
        if b[i] != 0 {
            return false;
        }
        i = i + 1;
    }
    true
}

/// Builds instructions for one access-controller program and its state account,
/// signed by `payer`.
pub struct AccessControllerClient {
    pub program_id: Address,
    pub access_controller_data_account: Address,
    pub payer: Address,
}

impl AccessControllerClient {
    pub fn new(program_id: Address, access_controller_data_account: Address, payer: Address) -> (r: Self)
        ensures
            r.program_id == program_id,
            r.access_controller_data_account == access_controller_data_account,
            r.payer == payer,
    {
        AccessControllerClient { program_id, access_controller_data_account, payer }
    }

    /// The state account (written) and the payer as owner (signer).
    pub open spec fn state_and_owner(&self) -> Seq<AccountMeta> {
        seq![
            AccountMeta::spec_writable(self.access_controller_data_account, false),
            AccountMeta::spec_readonly(self.payer, true),
        ]
    }

    /// The state account, the payer as owner, and `address` (read).
    pub open spec fn access_accounts(&self, address: Address) -> Seq<AccountMeta> {
        self.state_and_owner().push(AccountMeta::spec_readonly(address, false))
    }

    fn state_and_owner_metas(&self) -> (r: Vec<AccountMeta>)
        ensures
            r@ == self.state_and_owner(),
    {
        let mut v: Vec<AccountMeta> = Vec::new();
        v.push(AccountMeta::writable(self.access_controller_data_account, false));
        v.push(AccountMeta::readonly(self.payer, true));
        assert(v@ =~= self.state_and_owner());
        v
    }

    /// Creates the state account's contents with the payer as owner.
    pub fn initialize(&self) -> (r: Instruction)
        ensures
            is_instruction(r, self.program_id, self.state_and_owner(), initialize_tag()@),
    {
        let data = tag_only([175, 175, 109, 31, 13, 152, 155, 237]);
        Instruction { program_id: self.program_id, accounts: self.state_and_owner_metas(), data }
    }

    /// Adds `address` to the access list; the program accepts it only from the owner.
    pub fn add_access(&self, address: Address) -> (r: Instruction)
        ensures
            is_instruction(r, self.program_id, self.access_accounts(address), add_access_tag()@),
    {
        let mut accounts = self.state_and_owner_metas();
        accounts.push(AccountMeta::readonly(address, false));
        let data = tag_only([151, 189, 105, 24, 113, 60, 99, 138]);
        Instruction { program_id: self.program_id, accounts, data }
    }

    /// Removes `address` from the access list; the program accepts it only from the owner.
    pub fn remove_access(&self, address: Address) -> (r: Instruction)
        ensures
            is_instruction(r, self.program_id, self.access_accounts(address), remove_access_tag()@),
    {
        let mut accounts = self.state_and_owner_metas();
        accounts.push(AccountMeta::readonly(address, false));
        let data = tag_only([92, 172, 70, 124, 83, 45, 88, 22]);
        Instruction { program_id: self.program_id, accounts, data }
    }

    /// Proposes `proposed_owner` as the next owner, with the payer as the authority
    /// (the current owner, for the program to accept it).
    pub fn transfer_ownership(&self, proposed_owner: Address) -> (r: Instruction)
        ensures
            is_instruction(
                r,
                self.program_id,
                self.state_and_owner(),
                transfer_ownership_tag()@ + proposed_owner.bytes@,
            ),
    {
        let mut data = tag_only([65, 177, 215, 73, 53, 45, 99, 47]);
        push_bytes(&mut data, &proposed_owner.bytes);
        Instruction { program_id: self.program_id, accounts: self.state_and_owner_metas(), data }
    }

    /// Completes a transfer, with the payer as the authority (the proposed owner,
    /// for the program to accept it).
    pub fn accept_ownership(&self) -> (r: Instruction)
        ensures
            is_instruction(r, self.program_id, self.state_and_owner(), accept_ownership_tag()@),
    {
        let data = tag_only([172, 23, 43, 13, 238, 213, 85, 150]);
        Instruction { program_id: self.program_id, accounts: self.state_and_owner_metas(), data }
    }

    /// Decodes the state account from its bytes. Fails, without a partial result,
    /// on too few bytes, a wrong type tag or an over-long access list.
    pub fn read_access_controller_state(account_data: &[u8]) -> (r: Result<AccessControllerState, StateDecodeError>)
        ensures
            match r {
                Ok(st) => state_decode_error(account_data@) is None && decodes_to(account_data@, st),
                Err(e) => state_decode_error(account_data@) == Some(e),
            },
    {
        if account_data.len() < ACCESS_CONTROLLER_ACCOUNT_SIZE {
            return Err(StateDecodeError::AccountTooShort);
        }
        let tag: [u8; 8] = [143, 45, 12, 204, 220, 20, 114, 87];
        if !bytes_match(account_data, 0, &tag) {
            return Err(StateDecodeError::DiscriminatorMismatch);
        }
        let len: u64 = read_u64_le(account_data, ACCESS_LIST_LEN_OFFSET);
        if len > ACCESS_LIST_CAPACITY as u64 {
            return Err(StateDecodeError::AccessListTooLong);
        }
        let owner = read_address(account_data, OWNER_OFFSET);
        let proposed = read_address(account_data, PROPOSED_OWNER_OFFSET);
        let proposed_owner = if is_all_zero(&proposed.bytes) {
            None
        } else {
            Some(proposed)
        };
        let mut access_list: Vec<Address> = Vec::new();
        let mut i: usize = 0;
        while i < len as usize
            invariant
                len <= ACCESS_LIST_CAPACITY,
                0 <= i <= len,
                account_data@.len() >= ACCESS_CONTROLLER_ACCOUNT_SIZE,
                access_list@.len() == i,
                forall|k: int|
                    0 <= k < i ==> #[trigger] access_list@[k].bytes@ == address_bytes_at(
                        account_data@,
                        ACCESS_LIST_OFFSET + 32 * k,
                    ),
            decreases len - i,
        {
            let a = read_address(account_data, ACCESS_LIST_OFFSET + 32 * i);
            access_list.push(a);
            i = i + 1;
        }
        Ok(AccessControllerState { owner, proposed_owner, access_list })
    }

    /// Bytes the ledger must allocate for the state account.
    pub fn get_account_size_requirement() -> (r: usize)
        ensures
            r == ACCOUNT_DISCRIMINATOR_SIZE + ACCESS_CONTROLLER_SCHEMA_SIZE,
            r == ACCESS_CONTROLLER_ACCOUNT_SIZE,
    {
        ACCOUNT_DISCRIMINATOR_SIZE + ACCESS_CONTROLLER_SCHEMA_SIZE
    }
}

} // verus!
