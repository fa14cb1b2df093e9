use data_streams_admin::verifier_admin::{next_realloc_size, realloc_plan, verify_instruction, REALLOC_INCREMENT};
use data_streams_admin::{AccountMeta, Address, VerifierAdminClient, VerifyError};
use sha2::{Digest, Sha256};
use solana_pubkey::Pubkey;

fn addr(b: u8) -> Address {
    Address { bytes: [b; 32] }
}

fn discriminator(preimage: &str) -> Vec<u8> {
    Sha256::digest(preimage.as_bytes())[..8].to_vec()
}

fn program() -> Pubkey {
    Pubkey::new_from_array([7u8; 32])
}

fn client(access_controller: Option<Address>) -> VerifierAdminClient {
    VerifierAdminClient::new(Address { bytes: program().to_bytes() }, access_controller, addr(3)).unwrap()
}

fn signers(n: usize) -> Vec<[u8; 20]> {
    (0..n).map(|i| [i as u8 + 1; 20]).collect()
}

#[test]
fn new_derives_verifier_and_program_data_addresses() {
    let c = client(None);
    let (verifier, _) = Pubkey::find_program_address(&[b"verifier"], &program());
    assert_eq!(c.verifier_data_account.bytes, verifier.to_bytes());
    let loader = solana_sdk_ids::bpf_loader_upgradeable::ID;
    let (program_data, _) = Pubkey::find_program_address(&[program().as_ref()], &loader);
    assert_eq!(c.get_program_data_address().bytes, program_data.to_bytes());
}

#[test]
fn growth_from_zero_to_25000_takes_three_steps() {
    assert_eq!(REALLOC_INCREMENT, 10240);
    assert_eq!(realloc_plan(0, 25000), vec![10240, 20480, 25000]);
}

#[test]
fn growth_never_overshoots_and_ends_on_target() {
    for (current, target) in [(0usize, 1usize), (5, 10245), (5, 10246), (100, 100_000), (0, 20480)] {
        let plan = realloc_plan(current, target);
        assert!(plan.iter().all(|&s| s <= target));
        assert_eq!(*plan.last().unwrap(), target);
        let mut prev = current;
        for &s in &plan {
            assert!(s > prev && s - prev <= REALLOC_INCREMENT);
            prev = s;
        }
    }
    assert_eq!(realloc_plan(0, 20480), vec![10240, 20480]);
}

#[test]
fn growth_at_or_past_target_plans_nothing() {
    assert!(realloc_plan(25000, 25000).is_empty());
    assert!(realloc_plan(30000, 25000).is_empty());
}

#[test]
fn one_growth_step_is_clamped_to_target() {
    assert_eq!(next_realloc_size(0, 25000), 10240);
    assert_eq!(next_realloc_size(20480, 25000), 25000);
}

#[test]
fn realloc_encodes_length_as_u32() {
    let c = client(None);
    let ix = c.realloc(10240);
    let mut expected = discriminator("global:realloc_account");
    expected.extend_from_slice(&10240u32.to_le_bytes());
    assert_eq!(ix.data, expected);
    assert_eq!(ix.accounts.len(), 5);
    assert_eq!(ix.accounts[1], AccountMeta { pubkey: addr(3), is_signer: true, is_writable: true });
    assert_eq!(ix.accounts[4].pubkey.bytes, [0u8; 32]);
}

#[test]
fn realloc_full_size_ends_at_account_size() {
    let c = client(None);
    let full = VerifierAdminClient::get_account_size_requirement();
    assert_eq!(full, 167_032);
    let ixs = c.realloc_full_size(0);
    assert_eq!(ixs.len(), (full + REALLOC_INCREMENT - 1) / REALLOC_INCREMENT);
    assert_eq!(ixs[0].data[8..], 10240u32.to_le_bytes());
    assert_eq!(ixs.last().unwrap().data[8..], (full as u32).to_le_bytes());
    assert!(c.realloc_full_size(full).is_empty());
}

#[test]
fn set_config_with_ten_signers_and_f_three_is_encoded() {
    let c = client(None);
    let s = signers(10);
    let ix = c.set_config(s.clone(), 3);
    let mut expected = discriminator("global:set_config");
    expected.extend_from_slice(&10u32.to_le_bytes());
    for k in &s {
        expected.extend_from_slice(k);
    }
    expected.push(3);
    assert_eq!(ix.data, expected);
    assert_eq!(ix.data.len(), 8 + 4 + 200 + 1);
}

#[test]
fn set_config_does_not_judge_fault_threshold() {
    let c = client(None);
    let ix = c.set_config(signers(3), 4);
    assert_eq!(ix.data.len(), 8 + 4 + 60 + 1);
    assert_eq!(*ix.data.last().unwrap(), 4);
}

#[test]
fn set_config_with_activation_time_appends_time() {
    let c = client(None);
    let ix = c.set_config_with_activation_time(signers(2), 1, 0x0102_0304);
    let mut expected = discriminator("global:set_config_with_activation_time");
    expected.extend_from_slice(&2u32.to_le_bytes());
    expected.extend_from_slice(&[1u8; 20]);
    expected.extend_from_slice(&[2u8; 20]);
    expected.push(1);
    expected.extend_from_slice(&[4, 3, 2, 1]);
    assert_eq!(ix.data, expected);
}

#[test]
fn set_config_active_encodes_flag_as_one_byte() {
    let c = client(None);
    let on = c.set_config_active(5, true);
    let mut expected = discriminator("global:set_config_active");
    expected.extend_from_slice(&5u64.to_le_bytes());
    expected.push(1);
    assert_eq!(on.data, expected);
    let off = c.set_config_active(5, false);
    assert_eq!(*off.data.last().unwrap(), 0);
    assert_eq!(off.data.len(), 17);
}

#[test]
fn verifier_instructions_use_their_discriminators() {
    let c = client(Some(addr(9)));
    assert_eq!(c.initialize().data, discriminator("global:initialize"));
    assert_eq!(c.init_data().data, discriminator("global:initialize_account_data"));
    assert_eq!(c.remove_latest_config().data, discriminator("global:remove_latest_config"));
    assert_eq!(c.accept_ownership().data, discriminator("global:accept_ownership"));
    let t = c.transfer_ownership(addr(4));
    assert_eq!(t.data[..8], discriminator("global:transfer_ownership")[..]);
    assert_eq!(t.data[8..], [4u8; 32]);
    assert_eq!(t.accounts[1], AccountMeta { pubkey: addr(3), is_signer: true, is_writable: false });
}

#[test]
fn access_controller_reference_or_program_placeholder() {
    let with = client(Some(addr(9)));
    assert_eq!(with.init_data().accounts[2].pubkey, addr(9));
    let without = client(None);
    assert_eq!(without.init_data().accounts[2].pubkey, without.program_id);
    let set = without.set_access_controller(Some(addr(8)));
    assert_eq!(set.data, discriminator("global:set_access_controller"));
    assert_eq!(set.accounts[2].pubkey, addr(8));
    let clear = without.set_access_controller(None);
    assert_eq!(clear.accounts[2].pubkey, without.program_id);
}

#[test]
fn verify_without_access_controller_fails_first() {
    let c = client(None);
    assert_eq!(c.verify(&[0u8; 64]).unwrap_err(), VerifyError::AccessControllerRequired);
    assert_eq!(c.verify(&[]).unwrap_err(), VerifyError::AccessControllerRequired);
}

#[test]
fn verify_short_report_is_rejected() {
    let c = client(Some(addr(9)));
    assert_eq!(c.verify(&[1u8; 31]).unwrap_err(), VerifyError::ReportTooShort);
}

#[test]
fn verify_compresses_report_and_derives_feed_account() {
    let c = client(Some(addr(9)));
    let mut report = vec![0x11u8; 32];
    report.extend(std::iter::repeat(0xABu8).take(500));
    let ix = c.verify(&report).unwrap();
    let compressed = snap::raw::Encoder::new().compress_vec(&report).unwrap();
    assert!(compressed.len() < report.len());
    let mut expected = discriminator("global:verify");
    expected.extend_from_slice(&(compressed.len() as u32).to_le_bytes());
    expected.extend_from_slice(&compressed);
    assert_eq!(ix.data, expected);
    let (config, _) = Pubkey::find_program_address(&[&report[..32]], &program());
    assert_eq!(ix.accounts.len(), 4);
    assert_eq!(ix.accounts[0], AccountMeta { pubkey: c.verifier_data_account, is_signer: false, is_writable: false });
    assert_eq!(ix.accounts[1].pubkey, addr(9));
    assert_eq!(ix.accounts[2], AccountMeta { pubkey: addr(3), is_signer: true, is_writable: false });
    assert_eq!(ix.accounts[3].pubkey.bytes, config.to_bytes());
}

#[test]
fn verify_instruction_frames_given_bytes() {
    let ix = verify_instruction(addr(1), addr(2), addr(3), addr(4), addr(5), vec![9, 8, 7]);
    let mut expected = discriminator("global:verify");
    expected.extend_from_slice(&[3, 0, 0, 0, 9, 8, 7]);
    assert_eq!(ix.data, expected);
    assert_eq!(ix.program_id, addr(1));
}
