use vstd::prelude::*;

verus! {

/// A 32-byte account reference (public key) on the ledger.
#[derive(Clone, Copy, PartialEq, Eq, Debug)]
pub struct Address {
    pub bytes: [u8; 32],
}

/// The system program's id, the all-zero address.
pub open spec fn spec_system_program_id() -> Address {
    Address {
        bytes: [
            0, 0, 0, 0, 0, 0, 0, 0, 0, 0, 0, 0, 0, 0, 0, 0, 0, 0, 0, 0, 0, 0, 0, 0, 0, 0, 0, 0, 0,
            0, 0, 0,
        ],
    }
}

/// The system program's id.
pub fn system_program_id() -> (r: Address)
    ensures
        r == spec_system_program_id(),
{
    Address {
        bytes: [
            0, 0, 0, 0, 0, 0, 0, 0, 0, 0, 0, 0, 0, 0, 0, 0, 0, 0, 0, 0, 0, 0, 0, 0, 0, 0, 0, 0, 0,
            0, 0, 0,
        ],
    }
}

/// The upgradeable BPF loader's id, `BPFLoaderUpgradeab1e11111111111111111111111`.
pub open spec fn spec_bpf_loader_upgradeable_id() -> Address {
    Address {
        bytes: [
            2, 168, 246, 145, 78, 136, 161, 176, 226, 16, 21, 62, 247, 99, 174, 43, 0, 194, 185,
            61, 22, 193, 36, 210, 192, 83, 122, 16, 4, 128, 0, 0,
        ],
    }
}

/// The upgradeable BPF loader's id, which owns the program data accounts.
pub fn bpf_loader_upgradeable_id() -> (r: Address)
    ensures
        r == spec_bpf_loader_upgradeable_id(),
{
    Address {
        bytes: [
            2, 168, 246, 145, 78, 136, 161, 176, 226, 16, 21, 62, 247, 99, 174, 43, 0, 194, 185,
            61, 22, 193, 36, 210, 192, 83, 122, 16, 4, 128, 0, 0,
        ],
    }
}

/// The program-derived address search for `seeds` under `program_id`: the first
/// address off the ed25519 curve, trying bump seeds from 255 downwards, with that
/// bump seed; `None` when no bump seed gives one or the seeds are too long.
pub uninterp spec fn program_address_search(seeds: Seq<Seq<u8>>, program_id: Seq<u8>) -> Option<(Seq<u8>, u8)>;

/// The byte views of a list of seeds.
pub open spec fn seeds_view(seeds: Seq<Vec<u8>>) -> Seq<Seq<u8>> {
    seeds.map_values(|s: Vec<u8>| s@)
}

/// Whether `r` is the search result `found`, with the address held as bytes.
pub open spec fn search_result_is(r: Option<(Address, u8)>, found: Option<(Seq<u8>, u8)>) -> bool {
    match r {
        Some((a, bump)) => found == Some((a.bytes@, bump)),
        None => found is None,
    }
}

/// The address that `program_address_search` finds, if it finds one.
pub open spec fn derived_address(seeds: Seq<Seq<u8>>, program_id: Seq<u8>) -> Option<Seq<u8>> {
    match program_address_search(seeds, program_id) {
        Some((a, _)) => Some(a),
        None => None,
    }
}

/// Relies on `Pubkey::try_find_program_address` of solana-pubkey: it hashes the
/// seeds, a bump seed and the program id, and returns the first address (with its
/// bump seed) that is not a curve point, or `None`; it never panics. The result
/// depends on the seeds and the program id alone.
#[verifier::external_body]
fn try_find_program_address(seeds: &Vec<Vec<u8>>, program_id: &Address) -> (r: Option<(Address, u8)>)
    ensures
        search_result_is(r, program_address_search(seeds_view(seeds@), program_id.bytes@)),
{
    let slices: Vec<&[u8]> = seeds.iter().map(|s| s.as_slice()).collect();
    let program = solana_pubkey::Pubkey::new_from_array(program_id.bytes);
    solana_pubkey::Pubkey::try_find_program_address(&slices, &program)
        .map(|(a, bump)| (Address { bytes: a.to_bytes() }, bump))
}

/// Derives the program address for `seeds` under `program_id`, dropping the bump seed.
pub fn find_program_address(seeds: &Vec<Vec<u8>>, program_id: &Address) -> (r: Option<Address>)
    ensures
        match r {
            Some(a) => derived_address(seeds_view(seeds@), program_id.bytes@) == Some(a.bytes@),
            None => derived_address(seeds_view(seeds@), program_id.bytes@) is None,
        },
{
    match try_find_program_address(seeds, program_id) {
        Some((a, _bump)) => Some(a),
        None => None,
    }
}

} // verus!
