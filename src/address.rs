use vstd::prelude::*;

verus! {

/// A 32-byte account key.
#[derive(Clone, Copy, Debug, PartialEq, Eq)]
pub struct Pubkey {
    pub bytes: [u8; 32],
}

/// First seed of every ledger address: the ASCII text `config`.
pub const CONFIG_SEED: [u8; 6] = [99, 111, 110, 102, 105, 103];

/// The program-derived address of the seeds `tag`, `key` and the single byte
/// `bump`, under the program `program_id`; none where the seeds exceed the seed
/// limits or the digest lies on the curve.
pub uninterp spec fn program_address_of(
    tag: Seq<u8>,
    key: Seq<u8>,
    bump: u8,
    program_id: Seq<u8>,
) -> Option<Seq<u8>>;

/// Relies on `Pubkey::create_program_address` of the Solana program library:
/// the derived address depends on the seeds and the program id alone, and an
/// error stands for the absence of an address.
#[verifier::external_body]
fn create_program_address(tag: &[u8], key: &[u8; 32], bump: u8, program_id: &[u8; 32]) -> (r:
    Option<[u8; 32]>)
    ensures
        r.is_some() == program_address_of(tag@, key@, bump, program_id@).is_some(),
        r.is_some() ==> program_address_of(tag@, key@, bump, program_id@) == Some(r.unwrap()@),
{
    let bump_seed = [bump];
    let seeds: [&[u8]; 3] = [tag, key, &bump_seed];
    let program = anchor_lang::solana_program::pubkey::Pubkey::new_from_array(*program_id);
    match anchor_lang::solana_program::pubkey::Pubkey::create_program_address(&seeds, &program) {
        Ok(address) => Some(address.to_bytes()),
        Err(_) => None,
    }
}

/// Where the ledger of the collection `collection_mint` is stored, given its bump
/// seed and the owning program.
pub open spec fn ledger_address(collection_mint: Pubkey, bump: u8, program_id: Pubkey) -> Option<
    Seq<u8>,
> {
    program_address_of(CONFIG_SEED@, collection_mint.bytes@, bump, program_id.bytes@)
}

/// True when the two keys hold the same bytes.
pub fn keys_match(a: &Pubkey, b: &Pubkey) -> (r: bool)
    ensures
        r == (a.bytes@ == b.bytes@),
{
    let mut i: usize = 0;
    while i < 32
        invariant
            i <= 32,
            forall|j: int| 0 <= j < i ==> a.bytes@[j] == b.bytes@[j],
        decreases 32 - i,
    {
        if a.bytes[i] != b.bytes[i] {
            return false;
        }
        i = i + 1;
    }
    assert(a.bytes@ =~= b.bytes@);
    true
}

/// True when `derived`, the outcome of an address derivation, is the address
/// `address`.
pub fn address_matches(derived: Option<Pubkey>, address: &Pubkey) -> (r: bool)
    ensures
        r == (derived.is_some() && derived.unwrap().bytes@ == address.bytes@),
{
    match derived {
        Some(d) => keys_match(&d, address),
        None => false,
    }
}

/// Derives the ledger address of the collection `collection_mint`.
pub fn ledger_address_of(collection_mint: &Pubkey, bump: u8, program_id: &Pubkey) -> (r: Option<
    Pubkey,
>)
    ensures
        r.is_some() == ledger_address(*collection_mint, bump, *program_id).is_some(),
        r.is_some() ==> ledger_address(*collection_mint, bump, *program_id) == Some(
            r.unwrap().bytes@,
        ),
{
    match create_program_address(&CONFIG_SEED, &collection_mint.bytes, bump, &program_id.bytes) {
        Some(bytes) => Some(Pubkey { bytes }),
        None => None,
    }
}

/// The address check that binds a ledger to its collection: `address` must be
/// the address derived from the ledger's collection key and stored bump seed.
pub fn is_ledger_address(
    address: &Pubkey,
    config: &crate::ledger::CollectionConfig,
    program_id: &Pubkey,
) -> (r: bool)
    ensures
        r == (ledger_address(config.collection_mint, config.bump, *program_id) == Some(
            address.bytes@,
        )),
{
    let derived = ledger_address_of(&config.collection_mint, config.bump, program_id);
    address_matches(derived, address)
}

} // verus!
