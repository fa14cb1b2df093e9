//! Instructions for the report-verifier program: its singleton account (created at a
//! program-derived address, then grown in steps), its configuration, ownership
//! handshake, and report verification.
use crate::access_controller::ACCOUNT_DISCRIMINATOR_SIZE;
use crate::address::{
    bpf_loader_upgradeable_id, derived_address, find_program_address, seeds_view,
    spec_bpf_loader_upgradeable_id, spec_system_program_id, system_program_id, Address,
};
use crate::encoding::{push_bytes, push_le, u32_le, u64_le};
use crate::instruction::{is_instruction, tag_only, AccountMeta, Instruction};
use vstd::prelude::*;

verus! {

/// How much one reallocation may grow an account, in bytes.
pub const REALLOC_INCREMENT: usize = 10 * 1024;

/// Signers one configuration can list.
pub const MAX_SIGNERS: usize = 31;

/// Configurations the verifier account can hold.
pub const MAX_DON_CONFIGS: usize = 256;

/// One configuration: activation time (4), id (24), `f`, active flag, padding
/// (1 each), then `MAX_SIGNERS` twenty-byte signer keys and their count (1).
pub const DON_CONFIG_SIZE: usize = 4 + 24 + 1 + 1 + 1 + MAX_SIGNERS * 20 + 1;

/// The verifier schema: version, bump and padding (8); owner, proposed owner and
/// access controller (3 * 32); configuration count with padding (8); the
/// configuration slots.
pub const VERIFIER_SCHEMA_SIZE: usize = 8 + 3 * 32 + 8 + MAX_DON_CONFIGS * DON_CONFIG_SIZE;

/// Bytes the verifier account takes at full size: type tag plus schema.
pub const VERIFIER_ACCOUNT_SIZE: usize = ACCOUNT_DISCRIMINATOR_SIZE + VERIFIER_SCHEMA_SIZE;

/// The seed of the verifier account's address: `b"verifier"`.
pub open spec fn verifier_seed() -> Seq<u8> {
    seq![118u8, 101u8, 114u8, 105u8, 102u8, 105u8, 101u8, 114u8]
}

pub open spec fn initialize_tag() -> [u8; 8] {
    [175, 175, 109, 31, 13, 152, 155, 237]
}

pub open spec fn realloc_account_tag() -> [u8; 8] {
    [51, 237, 126, 233, 52, 244, 186, 244]
}

pub open spec fn initialize_account_data_tag() -> [u8; 8] {
    [15, 88, 71, 247, 173, 45, 110, 216]
}

pub open spec fn set_access_controller_tag() -> [u8; 8] {
    [86, 87, 56, 58, 148, 233, 95, 125]
}

pub open spec fn verify_tag() -> [u8; 8] {
    [133, 161, 141, 48, 120, 198, 88, 150]
}

pub open spec fn set_config_with_activation_time_tag() -> [u8; 8] {
    [189, 64, 69, 231, 128, 29, 197, 29]
}

pub open spec fn set_config_tag() -> [u8; 8] {
    [108, 158, 154, 175, 212, 98, 52, 66]
}

pub open spec fn set_config_active_tag() -> [u8; 8] {
    [90, 95, 224, 173, 96, 184, 36, 136]
}

pub open spec fn remove_latest_config_tag() -> [u8; 8] {
    [171, 221, 188, 175, 156, 87, 156, 63]
}

pub open spec fn transfer_ownership_tag() -> [u8; 8] {
    [65, 177, 215, 73, 53, 45, 99, 47]
}

pub open spec fn accept_ownership_tag() -> [u8; 8] {
    [172, 23, 43, 13, 238, 213, 85, 150]
}

/// The keys of a signer list, one after another.
pub open spec fn signer_list_bytes(s: Seq<[u8; 20]>) -> Seq<u8>
    decreases s.len(),
{
    if s.len() == 0 {
        Seq::empty()
    } else {
        signer_list_bytes(s.drop_last()) + s.last()@
    }
}

/// A signer list as an argument: its count as a little-endian `u32`, then the keys.
pub open spec fn signers_payload(s: Seq<[u8; 20]>) -> Seq<u8> {
    u32_le(s.len() as u32) + signer_list_bytes(s)
}

/// Appends the argument encoding of `signers` to `out`.
pub fn push_signers(out: &mut Vec<u8>, signers: &Vec<[u8; 20]>)
    requires
        signers@.len() <= u32::MAX,
    ensures
        final(out)@ == old(out)@ + signers_payload(signers@),
{
    push_le(out, signers.len() as u64, 4);
    let ghost start = out@;
    let mut i: usize = 0;
    while i < signers.len()
        invariant
            0 <= i <= signers@.len(),
            start == old(out)@ + u32_le(signers@.len() as u32),
            out@ == start + signer_list_bytes(signers@.subrange(0, i as int)),
        decreases signers@.len() - i,
    {
        push_bytes(out, &signers[i]);
        proof {
            let s = signers@.subrange(0, i + 1);
            assert(s.drop_last() =~= signers@.subrange(0, i as int));
            assert(s.last() == signers@[i as int]);
            assert(out@ =~= start + signer_list_bytes(s));
        }
        i = i + 1;
    }
    assert(signers@.subrange(0, signers@.len() as int) =~= signers@);
}

/// The size requested by growth step `i` (from zero) on the way from `current` to
/// `target`: one increment more than the step before, never past the target.
pub open spec fn planned_size(current: nat, target: nat, i: nat) -> nat {
    if current + (i + 1) * REALLOC_INCREMENT < target {
        (current + (i + 1) * REALLOC_INCREMENT) as nat
    } else {
        target
    }
}

/// How many growth steps take an account from `current` to `target` bytes.
pub open spec fn growth_step_count(current: nat, target: nat) -> nat {
    if current >= target {
        0
    } else {
        ((target - current) + REALLOC_INCREMENT - 1) as nat / REALLOC_INCREMENT as nat
    }
}

/// Growing from `current` to `target >= current`: no step requests more than
/// `target`, and the last step requests `target` exactly.
pub proof fn lemma_growth_reaches_target_exactly(current: nat, target: nat)
    requires
        current <= target,
    ensures
        forall|i: nat| i < growth_step_count(current, target) ==> #[trigger] planned_size(current, target, i) <= target,
        current < target ==> growth_step_count(current, target) > 0
            && planned_size(current, target, (growth_step_count(current, target) - 1) as nat) == target,
{
    if current < target {
        let d = (target - current) as int;
        let m = REALLOC_INCREMENT as int;
        let k = growth_step_count(current, target) as int;
        vstd::arithmetic::div_mod::lemma_fundamental_div_mod(d + m - 1, m);
        vstd::arithmetic::div_mod::lemma_mod_pos_bound(d + m - 1, m);
        assert(k * m >= d);
        assert(k > 0);
    }
}

/// One growth step: one increment more, but no further than `target`.
pub fn next_realloc_size(current: usize, target: usize) -> (r: usize)
    requires
        current < target,
    ensures
        r == planned_size(current as nat, target as nat, 0),
        current < r <= target,
        r - current <= REALLOC_INCREMENT,
{
    if target - current <= REALLOC_INCREMENT {
        target
    } else {
        current + REALLOC_INCREMENT
    }
}

/// The sizes to request, one transaction each, to grow an account of
/// `current_size` bytes to `target_size`. Each step grows by at most one increment,
/// no step passes the target, and the last step reaches it exactly.
pub fn realloc_plan(current_size: usize, target_size: usize) -> (r: Vec<usize>)
    ensures
        r@.len() == growth_step_count(current_size as nat, target_size as nat),
        forall|i: int| 0 <= i < r@.len() ==> #[trigger] r@[i] == planned_size(current_size as nat, target_size as nat, i as nat),
        forall|i: int| 0 <= i < r@.len() ==> #[trigger] r@[i] <= target_size,
        current_size < target_size ==> r@.len() > 0 && r@.last() == target_size,
        r@.len() > 0 ==> current_size < r@[0] && r@[0] - current_size <= REALLOC_INCREMENT,
        forall|i: int| 0 < i < r@.len() ==> r@[i - 1] < #[trigger] r@[i] && r@[i] - r@[i - 1] <= REALLOC_INCREMENT,
{
    let mut plan: Vec<usize> = Vec::new();
    let mut size: usize = current_size;
    while size < target_size
        invariant
            plan@.len() == 0 ==> size == current_size,
            plan@.len() > 0 ==> size == plan@.last() && size <= target_size,
            size < target_size ==> size == current_size + plan@.len() * REALLOC_INCREMENT,
            plan@.len() > 0 ==> current_size + (plan@.len() - 1) * REALLOC_INCREMENT < target_size,
            forall|i: int| 0 <= i < plan@.len() ==> #[trigger] plan@[i] == planned_size(current_size as nat, target_size as nat, i as nat),
            forall|i: int| 0 <= i < plan@.len() ==> #[trigger] plan@[i] <= target_size,
            plan@.len() > 0 ==> current_size < plan@[0] && plan@[0] - current_size <= REALLOC_INCREMENT,
            forall|i: int| 0 < i < plan@.len() ==> plan@[i - 1] < #[trigger] plan@[i] && plan@[i] - plan@[i - 1] <= REALLOC_INCREMENT,
        decreases target_size - size,
    {
        let ghost k = plan@.len();
        let ghost prev = plan@;
        size = next_realloc_size(size, target_size);
        assert(size == planned_size(current_size as nat, target_size as nat, k as nat));
        plan.push(size);
        assert(plan@ == prev.push(size));
        assert(forall|i: int| 0 <= i < k ==> plan@[i] == prev[i]);
    }
    proof {
        let k = plan@.len() as int;
        if k > 0 {
            let d = target_size - current_size;
            let m = REALLOC_INCREMENT as int;
            assert((k - 1) * m < d <= k * m);
            vstd::arithmetic::div_mod::lemma_fundamental_div_mod_converse(d + m - 1, m, k, d + m - 1 - k * m);
        }
    }
    plan
}

/// Why a verification instruction could not be built.
#[derive(Clone, Copy, PartialEq, Eq, Debug)]
pub enum VerifyError {
    /// No access controller is configured; verification needs one.
    AccessControllerRequired,
    /// The report is shorter than the 32-byte feed id that starts it.
    ReportTooShort,
    /// No program-derived address exists for the report's feed id.
    ReportConfigAddressNotFound,
    /// The report is too large to compress.
    ReportTooLarge,
}

/// The raw Snappy compression of `data`.
pub uninterp spec fn snappy_compressed(data: Seq<u8>) -> Seq<u8>;

/// Whether a buffer of `len` bytes is small enough for Snappy: its worst-case
/// compressed size, `32 + len + len / 6`, fits in a `u32`.
pub open spec fn compressible(len: nat) -> bool {
    32 + len + len / 6 <= u32::MAX
}

/// Relies on `snap::raw::Encoder::compress_vec` of snap: it fails exactly when the
/// worst-case compressed size `32 + n + n / 6` exceeds `u32::MAX`; otherwise it
/// returns the compressed bytes, at most that many. The result depends on the
/// input alone.
#[verifier::external_body]
fn snappy_compress(data: &[u8]) -> (r: Option<Vec<u8>>)
    ensures
        r is Some <==> compressible(data@.len() as nat),
        r matches Some(c) ==> c@ == snappy_compressed(data@) && c@.len() <= 32 + data@.len() + data@.len() / 6,
{
    snap::raw::Encoder::new().compress_vec(data).ok()
}

/// The first 32 bytes of a report: the seed of its feed's configuration account.
pub open spec fn report_seed(report: Seq<u8>) -> Seq<u8> {
    report.subrange(0, 32)
}

/// The accounts of a verification: verifier account, access controller, the user
/// (signer) and the feed's configuration account, all read.
pub open spec fn verify_accounts(
    verifier_account: Address,
    access_controller: Address,
    user: Address,
    report_config_account: Address,
) -> Seq<AccountMeta> {
    seq![
        AccountMeta::spec_readonly(verifier_account, false),
        AccountMeta::spec_readonly(access_controller, false),
        AccountMeta::spec_readonly(user, true),
        AccountMeta::spec_readonly(report_config_account, false),
    ]
}

/// The verification payload: tag, then the compressed report with a `u32` length prefix.
pub open spec fn verify_payload(compressed_report: Seq<u8>) -> Seq<u8> {
    verify_tag()@ + u32_le(compressed_report.len() as u32) + compressed_report
}

/// The instruction that verifies an already compressed report.
pub fn verify_instruction(
    program_id: Address,
    verifier_account: Address,
    access_controller: Address,
    user: Address,
    report_config_account: Address,
    compressed_report: Vec<u8>,
) -> (r: Instruction)
    requires
        compressed_report@.len() <= u32::MAX,
    ensures
        is_instruction(
            r,
            program_id,
            verify_accounts(verifier_account, access_controller, user, report_config_account),
            verify_payload(compressed_report@),
        ),
{
    let mut accounts: Vec<AccountMeta> = Vec::new();
    accounts.push(AccountMeta::readonly(verifier_account, false));
    accounts.push(AccountMeta::readonly(access_controller, false));
    accounts.push(AccountMeta::readonly(user, true));
    accounts.push(AccountMeta::readonly(report_config_account, false));
    assert(accounts@ =~= verify_accounts(verifier_account, access_controller, user, report_config_account));
    let mut data = tag_only([133, 161, 141, 48, 120, 198, 88, 150]);
    push_le(&mut data, compressed_report.len() as u64, 4);
    push_bytes(&mut data, compressed_report.as_slice());
    Instruction { program_id, accounts, data }
}

/// Builds instructions for one verifier program, signed by `payer`.
pub struct VerifierAdminClient {
    pub program_id: Address,
    /// The verifier account, derived from `b"verifier"` under the program.
    pub verifier_data_account: Address,
    /// The program's data account, derived from the program id under the upgradeable loader.
    pub program_data_address: Address,
    pub access_controller_data_account: Option<Address>,
    pub payer: Address,
}

/// The account an optional reference stands for: the program id stands in for none.
pub open spec fn optional_account(program_id: Address, a: Option<Address>) -> Address {
    match a {
        Some(x) => x,
        None => program_id,
    }
}

impl VerifierAdminClient {
    /// Sets up a client; `None` when either derived address cannot be found.
    pub fn new(program_id: Address, access_controller_data_account: Option<Address>, payer: Address) -> (r: Option<Self>)
        ensures
            r is Some <==> (derived_address(seq![verifier_seed()], program_id.bytes@) is Some
                && derived_address(seq![program_id.bytes@], spec_bpf_loader_upgradeable_id().bytes@) is Some),
            r matches Some(c) ==> {
                &&& c.program_id == program_id
                &&& derived_address(seq![verifier_seed()], program_id.bytes@) == Some(c.verifier_data_account.bytes@)
                &&& derived_address(seq![program_id.bytes@], spec_bpf_loader_upgradeable_id().bytes@) == Some(c.program_data_address.bytes@)
                &&& c.access_controller_data_account == access_controller_data_account
                &&& c.payer == payer
            },
    {
        let mut seed: Vec<u8> = Vec::new();
        push_bytes(&mut seed, &[118u8, 101u8, 114u8, 105u8, 102u8, 105u8, 101u8, 114u8]);
        let mut seeds: Vec<Vec<u8>> = Vec::new();
        seeds.push(seed);
        assert(seeds_view(seeds@) =~= seq![verifier_seed()]);
        let verifier = find_program_address(&seeds, &program_id);
        let program_data = Self::program_data_address_of(&program_id);
        match (verifier, program_data) {
            (Some(v), Some(d)) => Some(VerifierAdminClient {
                program_id,
                verifier_data_account: v,
                program_data_address: d,
                access_controller_data_account,
                payer,
            }),
            _ => None,
        }
    }

    fn program_data_address_of(program_id: &Address) -> (r: Option<Address>)
        ensures
            match r {
                Some(a) => derived_address(seq![program_id.bytes@], spec_bpf_loader_upgradeable_id().bytes@) == Some(a.bytes@),
                None => derived_address(seq![program_id.bytes@], spec_bpf_loader_upgradeable_id().bytes@) is None,
            },
    {
        let mut seed: Vec<u8> = Vec::new();
        push_bytes(&mut seed, &program_id.bytes);
        let mut seeds: Vec<Vec<u8>> = Vec::new();
        seeds.push(seed);
        assert(seeds_view(seeds@) =~= seq![program_id.bytes@]);
        let loader = bpf_loader_upgradeable_id();
        find_program_address(&seeds, &loader)
    }

    /// The program's data account.
    pub fn get_program_data_address(&self) -> (r: Address)
        ensures
            r == self.program_data_address,
    {
        self.program_data_address
    }

    /// Verifier account and payer (both written, payer signs), the program, its data
    /// account and the system program.
    pub open spec fn admin_accounts(&self) -> Seq<AccountMeta> {
        seq![
            AccountMeta::spec_writable(self.verifier_data_account, false),
            AccountMeta::spec_writable(self.payer, true),
            AccountMeta::spec_readonly(self.program_id, false),
            AccountMeta::spec_readonly(self.program_data_address, false),
            AccountMeta::spec_readonly(spec_system_program_id(), false),
        ]
    }

    /// Verifier account (written) and the payer as owner (signer).
    pub open spec fn owner_accounts(&self) -> Seq<AccountMeta> {
        seq![
            AccountMeta::spec_writable(self.verifier_data_account, false),
            AccountMeta::spec_readonly(self.payer, true),
        ]
    }

    fn admin_metas(&self) -> (r: Vec<AccountMeta>)
        ensures
            r@ == self.admin_accounts(),
    {
        let mut v: Vec<AccountMeta> = Vec::new();
        v.push(AccountMeta::writable(self.verifier_data_account, false));
        v.push(AccountMeta::writable(self.payer, true));
        v.push(AccountMeta::readonly(self.program_id, false));
        v.push(AccountMeta::readonly(self.program_data_address, false));
        v.push(AccountMeta::readonly(system_program_id(), false));
        assert(v@ =~= self.admin_accounts());
        v
    }

    fn owner_metas(&self) -> (r: Vec<AccountMeta>)
        ensures
            r@ == self.owner_accounts(),
    {
        let mut v: Vec<AccountMeta> = Vec::new();
        v.push(AccountMeta::writable(self.verifier_data_account, false));
        v.push(AccountMeta::readonly(self.payer, true));
        assert(v@ =~= self.owner_accounts());
        v
    }

    fn optional_meta(&self, a: Option<Address>) -> (r: AccountMeta)
        ensures
            r == AccountMeta::spec_readonly(optional_account(self.program_id, a), false),
    {
        match a {
            Some(x) => AccountMeta::readonly(x, false),
            None => AccountMeta::readonly(self.program_id, false),
        }
    }

    /// Creates the verifier account at its derived address, at minimal size.
    pub fn initialize(&self) -> (r: Instruction)
        ensures
            is_instruction(r, self.program_id, self.admin_accounts(), initialize_tag()@),
    {
        let data = tag_only([175, 175, 109, 31, 13, 152, 155, 237]);
        Instruction { program_id: self.program_id, accounts: self.admin_metas(), data }
    }

    /// Resizes the verifier account to exactly `len` bytes.
    pub fn realloc(&self, len: usize) -> (r: Instruction)
        requires
            len <= u32::MAX,
        ensures
            is_instruction(r, self.program_id, self.admin_accounts(), realloc_account_tag()@ + u32_le(len as u32)),
    {
        let mut data = tag_only([51, 237, 126, 233, 52, 244, 186, 244]);
        push_le(&mut data, len as u64, 4);
        Instruction { program_id: self.program_id, accounts: self.admin_metas(), data }
    }

    /// Verifier, payer, access controller (the program id when none), program,
    /// program data and system program.
    pub open spec fn init_data_accounts(&self) -> Seq<AccountMeta> {
        seq![
            AccountMeta::spec_writable(self.verifier_data_account, false),
            AccountMeta::spec_readonly(self.payer, true),
            AccountMeta::spec_readonly(optional_account(self.program_id, self.access_controller_data_account), false),
            AccountMeta::spec_readonly(self.program_id, false),
            AccountMeta::spec_readonly(self.program_data_address, false),
            AccountMeta::spec_readonly(spec_system_program_id(), false),
        ]
    }

    /// Initializes the data section of the full-size verifier account, recording the
    /// configured access controller (or none).
    pub fn init_data(&self) -> (r: Instruction)
        ensures
            is_instruction(r, self.program_id, self.init_data_accounts(), initialize_account_data_tag()@),
    {
        let mut v: Vec<AccountMeta> = Vec::new();
        v.push(AccountMeta::writable(self.verifier_data_account, false));
        v.push(AccountMeta::readonly(self.payer, true));
        v.push(self.optional_meta(self.access_controller_data_account));
        v.push(AccountMeta::readonly(self.program_id, false));
        v.push(AccountMeta::readonly(self.program_data_address, false));
        v.push(AccountMeta::readonly(system_program_id(), false));
        assert(v@ =~= self.init_data_accounts());
        let data = tag_only([15, 88, 71, 247, 173, 45, 110, 216]);
        Instruction { program_id: self.program_id, accounts: v, data }
    }

    /// Replaces or clears the access controller that the verifier account refers to.
    pub fn set_access_controller(&self, new_access_controller: Option<Address>) -> (r: Instruction)
        ensures
            is_instruction(
                r,
                self.program_id,
                self.owner_accounts().push(
                    AccountMeta::spec_readonly(optional_account(self.program_id, new_access_controller), false),
                ),
                set_access_controller_tag()@,
            ),
    {
        let mut v = self.owner_metas();
        v.push(self.optional_meta(new_access_controller));
        let data = tag_only([86, 87, 56, 58, 148, 233, 95, 125]);
        Instruction { program_id: self.program_id, accounts: v, data }
    }

    /// Replaces the configuration's signers and fault threshold `f`, effective from
    /// `activation_time`. Whether `signers` is long enough for `f` is for the program
    /// to judge.
    pub fn set_config_with_activation_time(&self, signers: Vec<[u8; 20]>, f: u8, activation_time: u32) -> (r: Instruction)
        requires
            signers@.len() <= u32::MAX,
        ensures
            is_instruction(
                r,
                self.program_id,
                self.owner_accounts(),
                set_config_with_activation_time_tag()@ + signers_payload(signers@) + seq![f] + u32_le(activation_time),
            ),
    {
        let mut data = tag_only([189, 64, 69, 231, 128, 29, 197, 29]);
        push_signers(&mut data, &signers);
        let ghost before = data@;
        data.push(f);
        assert(data@ =~= before + seq![f]);
        push_le(&mut data, activation_time as u64, 4);
        Instruction { program_id: self.program_id, accounts: self.owner_metas(), data }
    }

    /// Adds a configuration of `signers` and fault threshold `f`. Whether `signers` is
    /// long enough for `f` is for the program to judge.
    pub fn set_config(&self, signers: Vec<[u8; 20]>, f: u8) -> (r: Instruction)
        requires
            signers@.len() <= u32::MAX,
        ensures
            is_instruction(
                r,
                self.program_id,
                self.owner_accounts(),
                set_config_tag()@ + signers_payload(signers@) + seq![f],
            ),
    {
        let mut data = tag_only([108, 158, 154, 175, 212, 98, 52, 66]);
        push_signers(&mut data, &signers);
        let ghost before = data@;
        data.push(f);
        assert(data@ =~= before + seq![f]);
        Instruction { program_id: self.program_id, accounts: self.owner_metas(), data }
    }

    /// One resize instruction for each step from `current_size` to the full account
    /// size, in order; each is to be confirmed before the next is sent.
    pub fn realloc_full_size(&self, current_size: usize) -> (r: Vec<Instruction>)
        ensures
            r@.len() == growth_step_count(current_size as nat, VERIFIER_ACCOUNT_SIZE as nat),
            forall|i: int|
                0 <= i < r@.len() ==> is_instruction(
                    #[trigger] r@[i],
                    self.program_id,
                    self.admin_accounts(),
                    realloc_account_tag()@ + u32_le(planned_size(current_size as nat, VERIFIER_ACCOUNT_SIZE as nat, i as nat) as u32),
                ),
    {
        let plan = realloc_plan(current_size, VERIFIER_ACCOUNT_SIZE);
        let mut out: Vec<Instruction> = Vec::new();
        let mut i: usize = 0;
        while i < plan.len()
            invariant
                0 <= i <= plan@.len(),
                out@.len() == i,
                plan@.len() == growth_step_count(current_size as nat, VERIFIER_ACCOUNT_SIZE as nat),
                forall|k: int| 0 <= k < plan@.len() ==> #[trigger] plan@[k] == planned_size(current_size as nat, VERIFIER_ACCOUNT_SIZE as nat, k as nat),
                forall|k: int| 0 <= k < plan@.len() ==> #[trigger] plan@[k] <= VERIFIER_ACCOUNT_SIZE,
                forall|k: int|
                    0 <= k < i ==> is_instruction(
                        #[trigger] out@[k],
                        self.program_id,
                        self.admin_accounts(),
                        realloc_account_tag()@ + u32_le(planned_size(current_size as nat, VERIFIER_ACCOUNT_SIZE as nat, k as nat) as u32),
                    ),
            decreases plan@.len() - i,
        {
            let size = plan[i];
            assert(plan@[i as int] <= VERIFIER_ACCOUNT_SIZE);
            out.push(self.realloc(size));
            i = i + 1;
        }
        out
    }

    /// The configuration account of the report's feed, derived from the report's
    /// first 32 bytes under the program.
    pub fn compute_report_config_pda(&self, report: &[u8]) -> (r: Option<Address>)
        requires
            report@.len() >= 32,
        ensures
            match r {
                Some(a) => derived_address(seq![report_seed(report@)], self.program_id.bytes@) == Some(a.bytes@),
                None => derived_address(seq![report_seed(report@)], self.program_id.bytes@) is None,
            },
    {
        let mut seed: Vec<u8> = Vec::new();
        let mut i: usize = 0;
        while i < 32
            invariant
                0 <= i <= 32,
                report@.len() >= 32,
                seed@ == report@.subrange(0, i as int),
            decreases 32 - i,
        {
            assert(report@.subrange(0, i + 1) =~= report@.subrange(0, i as int).push(report@[i as int]));
            seed.push(report[i]);
            i = i + 1;
        }
        let mut seeds: Vec<Vec<u8>> = Vec::new();
        seeds.push(seed);
        assert(seeds_view(seeds@) =~= seq![report_seed(report@)]);
        find_program_address(&seeds, &self.program_id)
    }

    /// The instruction that verifies `signed_report`: its feed's configuration
    /// account is derived from its first 32 bytes, and it is sent compressed. Needs
    /// a configured access controller, checked before anything else.
    pub fn verify(&self, signed_report: &[u8]) -> (r: Result<Instruction, VerifyError>)
        ensures
            self.access_controller_data_account is None ==> r == Err::<Instruction, VerifyError>(VerifyError::AccessControllerRequired),
            self.access_controller_data_account is Some && signed_report@.len() < 32
                ==> r == Err::<Instruction, VerifyError>(VerifyError::ReportTooShort),
            self.access_controller_data_account is Some && signed_report@.len() >= 32
                && derived_address(seq![report_seed(signed_report@)], self.program_id.bytes@) is None
                ==> r == Err::<Instruction, VerifyError>(VerifyError::ReportConfigAddressNotFound),
            self.access_controller_data_account is Some && signed_report@.len() >= 32
                && derived_address(seq![report_seed(signed_report@)], self.program_id.bytes@) is Some
                && !compressible(signed_report@.len() as nat)
                ==> r == Err::<Instruction, VerifyError>(VerifyError::ReportTooLarge),
            self.access_controller_data_account is Some && signed_report@.len() >= 32
                && derived_address(seq![report_seed(signed_report@)], self.program_id.bytes@) is Some
                && compressible(signed_report@.len() as nat) ==> (r matches Ok(ix) && exists|config: Address|
                    #![trigger verify_accounts(self.verifier_data_account, self.access_controller_data_account->0, self.payer, config)]
                    derived_address(seq![report_seed(signed_report@)], self.program_id.bytes@) == Some(config.bytes@)
                    && is_instruction(
                        ix,
                        self.program_id,
                        verify_accounts(self.verifier_data_account, self.access_controller_data_account->0, self.payer, config),
                        verify_payload(snappy_compressed(signed_report@)),
                    )),
    {
        let access_controller = match self.access_controller_data_account {
            Some(a) => a,
            None => {
                return Err(VerifyError::AccessControllerRequired);
            },
        };
        if signed_report.len() < 32 {
            return Err(VerifyError::ReportTooShort);
        }
        let config_account = match self.compute_report_config_pda(signed_report) {
            Some(a) => a,
            None => {
                return Err(VerifyError::ReportConfigAddressNotFound);
            },
        };
        let compressed_report = match snappy_compress(signed_report) {
            Some(c) => c,
            None => {
                return Err(VerifyError::ReportTooLarge);
            },
        };
        let ix = verify_instruction(
            self.program_id,
            self.verifier_data_account,
            access_controller,
            self.payer,
            config_account,
            compressed_report,
        );
        assert(verify_accounts(self.verifier_data_account, access_controller, self.payer, config_account) == verify_accounts(self.verifier_data_account, self.access_controller_data_account->0, self.payer, config_account));
        Ok(ix)
    }

    /// Sets the active flag of configuration `don_config_index`, sent as one byte (0 or 1).
    pub fn set_config_active(&self, don_config_index: u64, is_active: bool) -> (r: Instruction)
        ensures
            is_instruction(
                r,
                self.program_id,
                self.owner_accounts(),
                set_config_active_tag()@ + u64_le(don_config_index) + seq![if is_active { 1u8 } else { 0u8 }],
            ),
    {
        let mut data = tag_only([90, 95, 224, 173, 96, 184, 36, 136]);
        push_le(&mut data, don_config_index, 8);
        let flag: u8 = if is_active { 1 } else { 0 };
        let ghost before = data@;
        data.push(flag);
        assert(data@ =~= before + seq![flag]);
        Instruction { program_id: self.program_id, accounts: self.owner_metas(), data }
    }

    /// Drops the most recently added configuration.
    pub fn remove_latest_config(&self) -> (r: Instruction)
        ensures
            is_instruction(r, self.program_id, self.owner_accounts(), remove_latest_config_tag()@),
    {
        let data = tag_only([171, 221, 188, 175, 156, 87, 156, 63]);
        Instruction { program_id: self.program_id, accounts: self.owner_metas(), data }
    }

    /// Proposes `proposed_owner` as the next owner, with the payer as the current owner.
    pub fn transfer_ownership(&self, proposed_owner: Address) -> (r: Instruction)
        ensures
            is_instruction(
                r,
                self.program_id,
                self.owner_accounts(),
                transfer_ownership_tag()@ + proposed_owner.bytes@,
            ),
    {
        let mut data = tag_only([65, 177, 215, 73, 53, 45, 99, 47]);
        push_bytes(&mut data, &proposed_owner.bytes);
        Instruction { program_id: self.program_id, accounts: self.owner_metas(), data }
    }

    /// Completes a transfer, with the payer as the proposed owner.
    pub fn accept_ownership(&self) -> (r: Instruction)
        ensures
            is_instruction(r, self.program_id, self.owner_accounts(), accept_ownership_tag()@),
    {
        let data = tag_only([172, 23, 43, 13, 238, 213, 85, 150]);
        Instruction { program_id: self.program_id, accounts: self.owner_metas(), data }
    }

    /// Bytes the verifier account takes at full size.
    pub fn get_account_size_requirement() -> (r: usize)
        ensures
            r == ACCOUNT_DISCRIMINATOR_SIZE + VERIFIER_SCHEMA_SIZE,
            r == VERIFIER_ACCOUNT_SIZE,
    {
        ACCOUNT_DISCRIMINATOR_SIZE + VERIFIER_SCHEMA_SIZE
    }
}

} // verus!
