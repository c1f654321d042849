use vstd::prelude::*;

verus! {

/// This program's deployed identity,
/// `FircrADQ2wgGuvpm8qneNCfKM7o5zoHTWnDQxngpTQ3J` in its base-58 form.
pub const PROGRAM_ID: [u8; 32] = [218, 188, 136, 144, 247, 46, 104, 164, 10, 179, 101, 23, 244, 68,
    129, 196, 40, 28, 185, 250, 171, 45, 71, 209, 243, 25, 199, 221, 18, 170, 13, 225];

/// The associated-token program that owns every derived token account,
/// `ATokenGPvbdGVxr1b2hvZbsiqW5xWH25efTNsLJA8knL` in its base-58 form.
pub const ATA_PROGRAM_ID: [u8; 32] = [140, 151, 37, 143, 78, 36, 137, 241, 187, 61, 16, 41, 20,
    142, 13, 131, 11, 90, 19, 153, 218, 255, 16, 132, 4, 142, 123, 216, 219, 233, 248, 89];

/// The system program, whose address is all zero bytes.
pub const SYSTEM_PROGRAM_ID: [u8; 32] = [0, 0, 0, 0, 0, 0, 0, 0, 0, 0, 0, 0, 0, 0, 0, 0, 0, 0, 0,
    0, 0, 0, 0, 0, 0, 0, 0, 0, 0, 0, 0, 0];

/// Seed tag of every escrow record address: the ASCII bytes of `escrow`.
pub const ESCROW_SEED_TAG: [u8; 6] = [101, 115, 99, 114, 111, 119];

/// Seed tag of the authority that signs scheduler registrations: the
/// ASCII bytes of `queue_authority`.
pub const QUEUE_AUTHORITY_SEED_TAG: [u8; 15] = [113, 117, 101, 117, 101, 95, 97, 117, 116, 104,
    111, 114, 105, 116, 121];

/// The SHA-256 digest of a byte string: a fixed function of its input
/// whose definition this library does not restate.
pub uninterp spec fn sha256_of(bytes: Seq<u8>) -> Seq<u8>;

/// Relies on the host's SHA-256 (`solana_program::hash::hash`): the digest
/// depends on the input bytes alone and is 32 bytes long.
#[verifier::external_body]
pub fn sha256(bytes: &[u8]) -> (r: Vec<u8>)
    ensures
        r@ == sha256_of(bytes@),
        r@.len() == 32,
{
    anchor_lang::solana_program::hash::hash(bytes).to_bytes().to_vec()
}

/// The deterministic keyless address (and its proof byte) that the host
/// derives from a seed list and a program identity, where one exists.
pub uninterp spec fn pda_of(seeds: Seq<Seq<u8>>, program_id: Seq<u8>) -> Option<(Seq<u8>, u8)>;

/// Relies on `Pubkey::try_find_program_address`: the derivation is a pure
/// function of the seed list and the program identity, the returned
/// address is 32 bytes, and it fails only when no proof byte yields a
/// valid keyless address (or a seed breaks the host's length limits).
#[verifier::external_body]
pub fn try_find_program_address(seeds: &Vec<Vec<u8>>, program_id: &[u8; 32]) -> (r: Option<
    (Vec<u8>, u8),
>)
    ensures
        match r {
            Some(p) => pda_of(seeds.deep_view(), program_id@) == Some((p.0@, p.1)) && p.0@.len()
                == 32,
            None => pda_of(seeds.deep_view(), program_id@) is None,
        },
{
    let pk = anchor_lang::solana_program::pubkey::Pubkey::new_from_array(*program_id);
    let seed_slices: Vec<&[u8]> = seeds.iter().map(|s| s.as_slice()).collect();
    anchor_lang::solana_program::pubkey::Pubkey::try_find_program_address(&seed_slices, &pk).map(
        |ab: (anchor_lang::solana_program::pubkey::Pubkey, u8)| (ab.0.to_bytes().to_vec(), ab.1),
    )
}

/// The seed list of an escrow record's address: the tag, the maker's
/// address bytes, and the little-endian nonce.
pub open spec fn escrow_seeds(maker: Seq<u8>, seed: u64) -> Seq<Seq<u8>> {
    seq![ESCROW_SEED_TAG@, maker, vstd::bytes::spec_u64_to_le_bytes(seed)]
}

/// The seed list of a derived token account: owner, token program, mint.
pub open spec fn ata_seeds(owner: Seq<u8>, mint: Seq<u8>, token_program: Seq<u8>) -> Seq<Seq<u8>> {
    seq![owner, token_program, mint]
}

/// Derive the escrow record's address and proof byte for `(maker, seed)`.
pub fn derive_escrow_address(maker: &[u8; 32], seed: u64) -> (r: Option<(Vec<u8>, u8)>)
    ensures
        match r {
            Some(p) => pda_of(escrow_seeds(maker@, seed), PROGRAM_ID@) == Some((p.0@, p.1))
                && p.0@.len() == 32,
            None => pda_of(escrow_seeds(maker@, seed), PROGRAM_ID@) is None,
        },
{
    let mut seeds: Vec<Vec<u8>> = Vec::new();
    seeds.push(vstd::slice::slice_to_vec(ESCROW_SEED_TAG.as_slice()));
    seeds.push(vstd::slice::slice_to_vec(maker.as_slice()));
    seeds.push(vstd::bytes::u64_to_le_bytes(seed));
    proof {
        assert(seeds.deep_view() =~~= escrow_seeds(maker@, seed));
    }
    try_find_program_address(&seeds, &PROGRAM_ID)
}

/// Derive the associated token account of `owner` for `mint` under the
/// given token program, exactly as the associated-token program does: a
/// keyless address under that program with the owner, the token program,
/// and the mint as seeds.
pub fn derive_token_account(owner: &[u8; 32], mint: &[u8; 32], token_program: &[u8; 32]) -> (r:
    Option<(Vec<u8>, u8)>)
    ensures
        match r {
            Some(p) => pda_of(ata_seeds(owner@, mint@, token_program@), ATA_PROGRAM_ID@) == Some(
                (p.0@, p.1),
            ) && p.0@.len() == 32,
            None => pda_of(ata_seeds(owner@, mint@, token_program@), ATA_PROGRAM_ID@) is None,
        },
{
    let mut seeds: Vec<Vec<u8>> = Vec::new();
    seeds.push(vstd::slice::slice_to_vec(owner.as_slice()));
    seeds.push(vstd::slice::slice_to_vec(token_program.as_slice()));
    seeds.push(vstd::slice::slice_to_vec(mint.as_slice()));
    proof {
        assert(seeds.deep_view() =~~= ata_seeds(owner@, mint@, token_program@));
    }
    try_find_program_address(&seeds, &ATA_PROGRAM_ID)
}

/// The seed list of the scheduler-facing signing authority.
pub open spec fn queue_authority_seeds() -> Seq<Seq<u8>> {
    seq![QUEUE_AUTHORITY_SEED_TAG@]
}

/// Derive the protocol-owned authority that signs scheduler registrations.
pub fn derive_queue_authority() -> (r: Option<(Vec<u8>, u8)>)
    ensures
        match r {
            Some(p) => pda_of(queue_authority_seeds(), PROGRAM_ID@) == Some((p.0@, p.1))
                && p.0@.len() == 32,
            None => pda_of(queue_authority_seeds(), PROGRAM_ID@) is None,
        },
{
    let mut seeds: Vec<Vec<u8>> = Vec::new();
    seeds.push(vstd::slice::slice_to_vec(QUEUE_AUTHORITY_SEED_TAG.as_slice()));
    proof {
        assert(seeds.deep_view() =~~= queue_authority_seeds());
    }
    try_find_program_address(&seeds, &PROGRAM_ID)
}

} // verus!
