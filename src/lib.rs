//! Capacity-bounded issuance of sequentially numbered badges for one collection.
//!
//! A collection gets exactly one ledger, stored at an address derived from the
//! collection's key. Each successful mint takes the ledger's current counter as
//! the badge's leaf index and then advances the counter by one, never past the
//! capacity fixed at creation.
pub mod address;
pub mod ledger;
pub mod lemmas;

pub use address::{address_matches, is_ledger_address, keys_match, ledger_address_of, Pubkey, CONFIG_SEED};
pub use ledger::{
    badge_request, initialize_collection, mint_badge, BadgeMetadata, BadgeRequest, CollectionConfig,
    CollectionRef, CreatorShare, ErrorCode, BADGE_SYMBOL, ROYALTY_BASIS_POINTS,
};
