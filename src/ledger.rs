use vstd::prelude::*;

verus! {

/// Ways in which an operation on a ledger is refused.
#[derive(Clone, Copy, Debug, PartialEq, Eq, Structural)]
pub enum ErrorCode {
    /// The ledger has issued as many badges as its capacity allows.
    CollectionFull,
    /// Reserved for an authority check; no operation of this library raises it,
    /// since minting is open to any payer.
    Unauthorized,
    /// The collection already has a ledger.
    DuplicateLedger,
    /// The external minting protocol refused the certificate.
    CollaboratorFailure,
    /// The supplied ledger address is not the one derived from the collection key.
    LedgerAddressMismatch,
}

/// The persisted issuance ledger of one collection.
#[derive(Clone, Copy, Debug, PartialEq, Eq)]
pub struct CollectionConfig {
    pub authority: crate::address::Pubkey,
    pub collection_mint: crate::address::Pubkey,
    pub total_minted: u64,
    pub max_capacity: u64,
    pub bump: u8,
}

impl CollectionConfig {
    /// Size of the stored record: an 8-byte discriminator, two keys, two
    /// counters and the bump seed.
    pub const LEN: usize = 8 + 32 + 32 + 8 + 8 + 1;

    /// The ledger never counts more badges than its capacity.
    pub open spec fn wf(&self) -> bool {
        self.total_minted <= self.max_capacity
    }

    /// True when another badge may still be issued.
    pub open spec fn has_room(&self) -> bool {
        self.total_minted < self.max_capacity
    }
}

/// The ledger that `initialize_collection` stores.
pub open spec fn new_ledger(
    authority: crate::address::Pubkey,
    collection_mint: crate::address::Pubkey,
    bump: u8,
    max_capacity: u64,
) -> CollectionConfig {
    CollectionConfig { authority, collection_mint, total_minted: 0, max_capacity, bump }
}

/// One mint attempt as a single indivisible step: the ledger after it and what
/// the caller gets back. `collaborator_ok` says whether the external minting
/// protocol created the certificate.
pub open spec fn mint_step(c: CollectionConfig, collaborator_ok: bool) -> (
    CollectionConfig,
    Result<u64, ErrorCode>,
) {
    if !c.has_room() {
        (c, Err(ErrorCode::CollectionFull))
    } else if !collaborator_ok {
        (c, Err(ErrorCode::CollaboratorFailure))
    } else {
        (
            CollectionConfig { total_minted: (c.total_minted + 1) as u64, ..c },
            Ok(c.total_minted),
        )
    }
}

/// Creates the ledger of a collection in `slot`, the storage at the collection's
/// derived ledger address. An occupied slot is left as it is.
pub fn initialize_collection(
    slot: &mut Option<CollectionConfig>,
    authority: crate::address::Pubkey,
    collection_mint: crate::address::Pubkey,
    bump: u8,
    max_capacity: u64,
) -> (r: Result<(), ErrorCode>)
    ensures
        old(slot).is_some() ==> r == Err::<(), ErrorCode>(ErrorCode::DuplicateLedger)
            && *final(slot) == *old(slot),
        old(slot).is_none() ==> r == Ok::<(), ErrorCode>(())
            && *final(slot) == Some(new_ledger(authority, collection_mint, bump, max_capacity)),
        final(slot).is_some(),
        old(slot).is_none() || old(slot).unwrap().wf() ==> final(slot).unwrap().wf(),
{
    if slot.is_some() {
        return Err(ErrorCode::DuplicateLedger);
    }
    *slot = Some(
        CollectionConfig { authority, collection_mint, total_minted: 0, max_capacity, bump },
    );
    Ok(())
}

/// Symbol carried by every badge.
pub const BADGE_SYMBOL: &'static str = "Y100GO";

/// Royalty on secondary sales, in basis points (five percent).
pub const ROYALTY_BASIS_POINTS: u16 = 500;

/// The collection a badge claims to belong to.
#[derive(Clone, Copy, Debug, PartialEq, Eq)]
pub struct CollectionRef {
    pub key: crate::address::Pubkey,
    pub verified: bool,
}

/// A creator entry of a badge and its share of royalties, in percent.
#[derive(Clone, Copy, Debug, PartialEq, Eq)]
pub struct CreatorShare {
    pub address: crate::address::Pubkey,
    pub verified: bool,
    pub share: u8,
}

/// Description of one badge, handed to the external minting protocol.
#[derive(Clone, Debug)]
pub struct BadgeMetadata {
    pub name: String,
    pub symbol: String,
    pub uri: String,
    pub seller_fee_basis_points: u16,
    pub primary_sale_happened: bool,
    pub is_mutable: bool,
    pub edition_nonce: Option<u8>,
    pub collection: CollectionRef,
    pub creators: Vec<CreatorShare>,
}

/// Everything the external minting protocol is asked to do for one badge,
/// apart from the tree and program accounts that the caller passes through.
#[derive(Clone, Debug)]
pub struct BadgeRequest {
    /// The index the badge gets: the ledger's counter before the mint.
    pub leaf_index: u64,
    pub leaf_owner: crate::address::Pubkey,
    pub leaf_delegate: crate::address::Pubkey,
    pub payer: crate::address::Pubkey,
    pub tree_creator_or_delegate: crate::address::Pubkey,
    /// The payer stands as collection authority as well.
    pub collection_authority: crate::address::Pubkey,
    pub metadata: BadgeMetadata,
}

/// `m` describes a badge of the ledger `c` with the given name and URI, created
/// by `payer`: fixed symbol and royalty, one unverified creator holding the whole
/// share, and an unverified claim of membership in `c`'s collection.
pub open spec fn is_badge_metadata(
    m: BadgeMetadata,
    c: CollectionConfig,
    payer: crate::address::Pubkey,
    name: Seq<char>,
    uri: Seq<char>,
) -> bool {
    &&& m.name@ == name
    &&& m.symbol@ == BADGE_SYMBOL@
    &&& m.uri@ == uri
    &&& m.seller_fee_basis_points == ROYALTY_BASIS_POINTS
    &&& !m.primary_sale_happened
    &&& m.is_mutable
    &&& m.edition_nonce == Some(0u8)
    &&& m.collection == (CollectionRef { key: c.collection_mint, verified: false })
    &&& m.creators@ == seq![CreatorShare { address: payer, verified: false, share: 100 }]
}

/// `q` is the request for the next badge of `c`, owned and delegated to
/// `recipient` and paid for by `payer`.
pub open spec fn is_badge_request(
    q: BadgeRequest,
    c: CollectionConfig,
    recipient: crate::address::Pubkey,
    payer: crate::address::Pubkey,
    name: Seq<char>,
    uri: Seq<char>,
) -> bool {
    &&& q.leaf_index == c.total_minted
    &&& q.leaf_owner == recipient
    &&& q.leaf_delegate == recipient
    &&& q.payer == payer
    &&& q.tree_creator_or_delegate == payer
    &&& q.collection_authority == payer
    &&& is_badge_metadata(q.metadata, c, payer, name, uri)
}

/// Builds what the external minting protocol must be asked for the next badge
/// of `config`. A full ledger is refused before anything is built.
pub fn badge_request(
    config: &CollectionConfig,
    recipient: crate::address::Pubkey,
    payer: crate::address::Pubkey,
    name: String,
    uri: String,
) -> (r: Result<BadgeRequest, ErrorCode>)
    ensures
        !config.has_room() ==> r == Err::<BadgeRequest, ErrorCode>(ErrorCode::CollectionFull),
        config.has_room() ==> (r matches Ok(q) && is_badge_request(
            q,
            *config,
            recipient,
            payer,
            name@,
            uri@,
        )),
{
    if config.total_minted >= config.max_capacity {
        return Err(ErrorCode::CollectionFull);
    }
    let creator = CreatorShare { address: payer, verified: false, share: 100 };
    let creators: Vec<CreatorShare> = vec![creator];
    assert(creators@ =~= seq![creator]);
    let metadata = BadgeMetadata {
        name,
        symbol: BADGE_SYMBOL.to_owned(),
        uri,
        seller_fee_basis_points: ROYALTY_BASIS_POINTS,
        primary_sale_happened: false,
        is_mutable: true,
        edition_nonce: Some(0),
        collection: CollectionRef { key: config.collection_mint, verified: false },
        creators,
    };
    Ok(
        BadgeRequest {
            leaf_index: config.total_minted,
            leaf_owner: recipient,
            leaf_delegate: recipient,
            payer,
            tree_creator_or_delegate: payer,
            collection_authority: payer,
            metadata,
        },
    )
}

/// Settles one mint attempt on `config`: a full ledger refuses it, a refusal by
/// the external minting protocol leaves the ledger as it was, and a certificate
/// that was created takes the current counter as its leaf index and advances the
/// counter by one.
pub fn mint_badge(config: &mut CollectionConfig, collaborator_ok: bool) -> (r: Result<
    u64,
    ErrorCode,
>)
    ensures
        (*final(config), r) == mint_step(*old(config), collaborator_ok),
        old(config).wf() ==> final(config).wf(),
        final(config).max_capacity == old(config).max_capacity,
{
    if config.total_minted >= config.max_capacity {
        return Err(ErrorCode::CollectionFull);
    }
    if !collaborator_ok {
        return Err(ErrorCode::CollaboratorFailure);
    }
    let leaf_index = config.total_minted;
    config.total_minted = leaf_index + 1;
    Ok(leaf_index)
}

} // verus!
