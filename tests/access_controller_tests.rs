use data_streams_admin::access_controller::ACCESS_CONTROLLER_ACCOUNT_SIZE;
use data_streams_admin::address::{bpf_loader_upgradeable_id, system_program_id};
use data_streams_admin::{AccessControllerClient, AccountMeta, Address, StateDecodeError};
use sha2::{Digest, Sha256};

fn addr(b: u8) -> Address {
    Address { bytes: [b; 32] }
}

fn discriminator(preimage: &str) -> Vec<u8> {
    Sha256::digest(preimage.as_bytes())[..8].to_vec()
}

fn client() -> AccessControllerClient {
    AccessControllerClient::new(addr(1), addr(2), addr(3))
}

const STATE_TAG: [u8; 8] = [143, 45, 12, 204, 220, 20, 114, 87];

fn state_bytes(owner: Address, proposed: Address, list: &[Address], len: u64) -> Vec<u8> {
    let mut data = vec![0u8; ACCESS_CONTROLLER_ACCOUNT_SIZE];
    data[..8].copy_from_slice(&STATE_TAG);
    data[8..40].copy_from_slice(&owner.bytes);
    data[40..72].copy_from_slice(&proposed.bytes);
    for (i, a) in list.iter().enumerate() {
        data[72 + 32 * i..104 + 32 * i].copy_from_slice(&a.bytes);
    }
    data[72 + 64 * 32..].copy_from_slice(&len.to_le_bytes());
    data
}

#[test]
fn well_known_program_ids_match_the_ledger() {
    assert_eq!(system_program_id().bytes, solana_sdk_ids::system_program::ID.to_bytes());
    assert_eq!(
        bpf_loader_upgradeable_id().bytes,
        solana_sdk_ids::bpf_loader_upgradeable::ID.to_bytes()
    );
}

#[test]
fn state_tag_is_the_account_discriminator() {
    assert_eq!(STATE_TAG.to_vec(), discriminator("account:AccessController"));
}

#[test]
fn initialize_names_state_and_owner() {
    let ix = client().initialize();
    assert_eq!(ix.program_id, addr(1));
    assert_eq!(
        ix.accounts,
        vec![
            AccountMeta { pubkey: addr(2), is_signer: false, is_writable: true },
            AccountMeta { pubkey: addr(3), is_signer: true, is_writable: false },
        ]
    );
    assert_eq!(ix.data, discriminator("global:initialize"));
}

#[test]
fn add_and_remove_access_name_the_address() {
    let c = client();
    let add = c.add_access(addr(9));
    assert_eq!(add.accounts.len(), 3);
    assert_eq!(add.accounts[2], AccountMeta { pubkey: addr(9), is_signer: false, is_writable: false });
    assert_eq!(add.data, discriminator("global:add_access"));
    let remove = c.remove_access(addr(9));
    assert_eq!(remove.accounts, add.accounts);
    assert_eq!(remove.data, discriminator("global:remove_access"));
}

#[test]
fn transfer_ownership_carries_the_proposed_owner() {
    let ix = client().transfer_ownership(addr(7));
    let mut expected = discriminator("global:transfer_ownership");
    expected.extend_from_slice(&[7u8; 32]);
    assert_eq!(ix.data, expected);
    assert_eq!(ix.accounts[1], AccountMeta { pubkey: addr(3), is_signer: true, is_writable: false });
}

#[test]
fn accept_ownership_is_signed_by_the_payer() {
    let ix = client().accept_ownership();
    assert_eq!(ix.data, discriminator("global:accept_ownership"));
    assert_eq!(ix.accounts[1], AccountMeta { pubkey: addr(3), is_signer: true, is_writable: false });
    assert_eq!(ix.accounts[0], AccountMeta { pubkey: addr(2), is_signer: false, is_writable: true });
}

#[test]
fn access_controller_account_size_is_tag_plus_schema() {
    assert_eq!(AccessControllerClient::get_account_size_requirement(), 8 + 2120);
}

#[test]
fn short_buffer_is_a_decode_error() {
    let full = state_bytes(addr(4), addr(0), &[], 0);
    let short = &full[..full.len() - 1];
    assert_eq!(
        AccessControllerClient::read_access_controller_state(short).unwrap_err(),
        StateDecodeError::AccountTooShort
    );
    assert_eq!(
        AccessControllerClient::read_access_controller_state(&[]).unwrap_err(),
        StateDecodeError::AccountTooShort
    );
}

#[test]
fn wrong_tag_is_a_decode_error() {
    let mut data = state_bytes(addr(4), addr(0), &[], 0);
    data[0] ^= 1;
    assert_eq!(
        AccessControllerClient::read_access_controller_state(&data).unwrap_err(),
        StateDecodeError::DiscriminatorMismatch
    );
}

#[test]
fn over_long_access_list_is_a_decode_error() {
    let data = state_bytes(addr(4), addr(0), &[], 65);
    assert_eq!(
        AccessControllerClient::read_access_controller_state(&data).unwrap_err(),
        StateDecodeError::AccessListTooLong
    );
}

#[test]
fn decodes_owner_and_access_list() {
    let data = state_bytes(addr(4), addr(0), &[addr(5), addr(6)], 2);
    let st = AccessControllerClient::read_access_controller_state(&data).unwrap();
    assert_eq!(st.owner, addr(4));
    assert_eq!(st.proposed_owner, None);
    assert_eq!(st.access_list, vec![addr(5), addr(6)]);
}

#[test]
fn decodes_pending_transfer_and_full_list() {
    let list: Vec<Address> = (0..64u8).map(|i| addr(i + 10)).collect();
    let mut data = state_bytes(addr(4), addr(8), &list, 64);
    data.extend_from_slice(&[0xAA; 16]);
    let st = AccessControllerClient::read_access_controller_state(&data).unwrap();
    assert_eq!(st.proposed_owner, Some(addr(8)));
    assert_eq!(st.access_list, list);
}
