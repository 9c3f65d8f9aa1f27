//! Program-derived addresses: where each account of the ledger lives.
//!
//! An account has no free-floating address. The singleton state, every run
//! and every record sit at the address that the program's id and a list of
//! seeds determine, so the same natural key always resolves to the same slot.

use vstd::prelude::*;
use vstd::bytes::spec_u64_to_le_bytes;
use vstd::bytes::u64_to_le_bytes;
use vstd::slice::slice_subrange;
use vstd::slice::slice_to_vec;
use crate::pubkey::Pubkey;

verus! {

/// Number of leading bytes of an external address that take part in a
/// record's address. The remaining bytes are stored, not addressed.
pub const ETH_KEY_BYTES: usize = 20;

/// A derived address together with the bump seed that produced it.
#[derive(Clone, Copy, Debug, PartialEq, Eq)]
pub struct ProgramAddress {
    pub address: Pubkey,
    pub bump: u8,
}

impl View for ProgramAddress {
    type V = (Seq<u8>, u8);

    open spec fn view(&self) -> (Seq<u8>, u8) {
        (self.address@, self.bump)
    }
}

/// The address and bump seed derived from `seeds` for the program
/// `program_id`, or `None` where no bump seed yields an address.
pub uninterp spec fn program_address(seeds: Seq<Seq<u8>>, program_id: Seq<u8>) -> Option<(Seq<u8>, u8)>;

/// The seeds of a list, each as its bytes.
pub open spec fn seeds_view(seeds: &Vec<Vec<u8>>) -> Seq<Seq<u8>> {
    Seq::new(seeds@.len(), |i: int| seeds@[i]@)
}

/// The bytes of `state`.
pub open spec fn state_tag() -> Seq<u8> {
    seq![115u8, 116u8, 97u8, 116u8, 101u8]
}

/// The bytes of `run`.
pub open spec fn run_tag() -> Seq<u8> {
    seq![114u8, 117u8, 110u8]
}

/// The bytes of `airdrop_record`.
pub open spec fn record_tag() -> Seq<u8> {
    seq![
        97u8, 105u8, 114u8, 100u8, 114u8, 111u8, 112u8, 95u8, 114u8, 101u8, 99u8, 111u8, 114u8,
        100u8,
    ]
}

/// Seeds of the singleton state.
pub open spec fn state_seeds() -> Seq<Seq<u8>> {
    seq![state_tag()]
}

/// Seeds of the run with identifier `run_id`: the tag and the identifier in
/// little-endian order.
pub open spec fn run_seeds(run_id: u64) -> Seq<Seq<u8>> {
    seq![run_tag(), spec_u64_to_le_bytes(run_id)]
}

/// Seeds of the record of a wallet and an external address: the tag, the
/// wallet and the first 20 bytes of the external address.
pub open spec fn record_seeds(wallet: Seq<u8>, eth_address: Seq<u8>) -> Seq<Seq<u8>> {
    seq![record_tag(), wallet, eth_address.subrange(0, ETH_KEY_BYTES as int)]
}

/// Where the singleton state of program `program_id` lives.
pub open spec fn state_address_spec(program_id: Seq<u8>) -> Option<(Seq<u8>, u8)> {
    program_address(state_seeds(), program_id)
}

/// Where run `run_id` of program `program_id` lives.
pub open spec fn run_address_spec(program_id: Seq<u8>, run_id: u64) -> Option<(Seq<u8>, u8)> {
    program_address(run_seeds(run_id), program_id)
}

/// Where the record of a wallet and an external address lives.
pub open spec fn record_address_spec(
    program_id: Seq<u8>,
    wallet: Seq<u8>,
    eth_address: Seq<u8>,
) -> Option<(Seq<u8>, u8)> {
    program_address(record_seeds(wallet, eth_address), program_id)
}

/// What a derivation found, as plain values.
pub open spec fn found_view(found: Option<ProgramAddress>) -> Option<(Seq<u8>, u8)> {
    match found {
        Some(pda) => Some(pda@),
        None => None,
    }
}

/// The address that a derivation found.
pub open spec fn address_of(derived: Option<(Seq<u8>, u8)>) -> Seq<u8> {
    match derived {
        Some((address, _)) => address,
        None => Seq::empty(),
    }
}

/// The bump seed that a derivation found.
pub open spec fn bump_of(derived: Option<(Seq<u8>, u8)>) -> u8 {
    match derived {
        Some((_, bump)) => bump,
        None => 0,
    }
}

/// Calls `Pubkey::try_find_program_address` of `anchor_lang`. The search is a
/// function of the seeds and the program id alone; the contract names its
/// result `program_address` and claims nothing else about it.
#[verifier::external_body]
fn try_find_program_address(seeds: &Vec<Vec<u8>>, program_id: &Pubkey) -> (found: Option<
    ProgramAddress,
>)
    ensures
        found_view(found) == program_address(seeds_view(seeds), program_id@),
{
    let slices: Vec<&[u8]> = seeds.iter().map(|seed| seed.as_slice()).collect();
    let program = anchor_lang::prelude::Pubkey::new_from_array(program_id.to_bytes());
    match anchor_lang::prelude::Pubkey::try_find_program_address(&slices, &program) {
        Some((address, bump)) => Some(
            ProgramAddress { address: Pubkey::new_from_array(address.to_bytes()), bump },
        ),
        None => None,
    }
}

/// Derives the address of the singleton state.
pub fn state_address(program_id: &Pubkey) -> (found: Option<ProgramAddress>)
    ensures
        found_view(found) == state_address_spec(program_id@),
{
    let mut seeds: Vec<Vec<u8>> = Vec::new();
    seeds.push(vec![115u8, 116u8, 97u8, 116u8, 101u8]);
    assert(seeds_view(&seeds) =~= state_seeds()) by {
        assert(seeds@[0]@ =~= state_tag());
    }
    try_find_program_address(&seeds, program_id)
}

/// Derives the address of run `run_id`.
pub fn run_address(program_id: &Pubkey, run_id: u64) -> (found: Option<ProgramAddress>)
    ensures
        found_view(found) == run_address_spec(program_id@, run_id),
{
    let mut seeds: Vec<Vec<u8>> = Vec::new();
    seeds.push(vec![114u8, 117u8, 110u8]);
    seeds.push(u64_to_le_bytes(run_id));
    assert(seeds_view(&seeds) =~= run_seeds(run_id)) by {
        assert(seeds@[0]@ =~= run_tag());
    }
    try_find_program_address(&seeds, program_id)
}

/// Derives the address of the record of `wallet` and `eth_address`. Only the
/// first 20 bytes of `eth_address` take part.
pub fn record_address(program_id: &Pubkey, wallet: &Pubkey, eth_address: &[u8; 42]) -> (found:
    Option<ProgramAddress>)
    ensures
        found_view(found) == record_address_spec(program_id@, wallet@, eth_address@),
{
    let wallet_bytes = wallet.to_bytes();
    let mut seeds: Vec<Vec<u8>> = Vec::new();
    seeds.push(
        vec![
            97u8, 105u8, 114u8, 100u8, 114u8, 111u8, 112u8, 95u8, 114u8, 101u8, 99u8, 111u8,
            114u8, 100u8,
        ],
    );
    seeds.push(slice_to_vec(wallet_bytes.as_slice()));
    seeds.push(slice_to_vec(slice_subrange(eth_address.as_slice(), 0, ETH_KEY_BYTES)));
    assert(seeds_view(&seeds) =~= record_seeds(wallet@, eth_address@)) by {
        assert(seeds@[0]@ =~= record_tag());
    }
    try_find_program_address(&seeds, program_id)
}

} // verus!
