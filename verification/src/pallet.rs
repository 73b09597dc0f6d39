//! The state of the pallet.
use vstd::prelude::*;

use crate::table::Table;
use crate::types::{
    AccountId, AssetKey, CollectionId, Config, Failure, Origin, Proposal, ProposalView,
    ReceivedCols, ReceivedStruct, SentStruct,
};

verus! {

/// What the pallet remembers.
pub struct Pallet {
    pub config: Config,
    /// The assets sent from here, by their place here.
    pub sent_assets: Table<AssetKey, SentStruct>,
    /// The assets received here, by their place here.
    pub received_assets: Table<AssetKey, ReceivedStruct>,
    /// The collections received here, by their identifier here.
    pub received_collections: Table<CollectionId, ReceivedCols>,
    /// The identifier that the next proposal gets.
    pub next_proposal_id: u64,
    /// The proposals that wait for votes or for their initiation.
    pub cross_chain_proposals: Table<u64, Proposal>,
}

/// What the pallet remembers, with its tables as maps.
#[verifier::ext_equal]
pub struct Storage {
    pub config: Config,
    pub sent_assets: Map<AssetKey, SentStruct>,
    pub received_assets: Map<AssetKey, ReceivedStruct>,
    pub received_collections: Map<CollectionId, ReceivedCols>,
    pub next_proposal_id: u64,
    pub proposals: Map<u64, ProposalView>,
}

/// The proposals of a table, each with its lists as sequences.
pub open spec fn proposal_views(proposals: Map<u64, Proposal>) -> Map<u64, ProposalView> {
    proposals.map_values(|p: Proposal| p@)
}

impl View for Pallet {
    type V = Storage;

    open spec fn view(&self) -> Storage {
        Storage {
            config: self.config,
            sent_assets: self.sent_assets@,
            received_assets: self.received_assets@,
            received_collections: self.received_collections@,
            next_proposal_id: self.next_proposal_id,
            proposals: proposal_views(self.cross_chain_proposals@),
        }
    }
}

impl Storage {
    /// The storage of a pallet that nobody has called yet.
    pub open spec fn initial(config: Config) -> Storage {
        Storage {
            config,
            sent_assets: Map::empty(),
            received_assets: Map::empty(),
            received_collections: Map::empty(),
            next_proposal_id: 0,
            proposals: Map::empty(),
        }
    }

    /// Whether every record says what its key says, no asset is both here and away, every proposal
    /// is fair, and no two proposals concern one collection.
    pub open spec fn is_sound(self) -> bool {
        &&& are_kept_by_collection(self.proposals)
        &&& forall|id: u64| #[trigger]
            self.proposals.contains_key(id) ==> self.proposals[id].is_fair(self.config.max_owners)
        &&& forall|asset: AssetKey| #[trigger]
            self.received_assets.contains_key(asset)
                ==> self.received_assets[asset].received_collection_id == asset.collection
                && self.received_assets[asset].received_asset_id == asset.item
                && !self.sent_assets.contains_key(asset)
        &&& forall|collection: CollectionId| #[trigger]
            self.received_collections.contains_key(collection)
                ==> self.received_collections[collection].received_collection_id == collection
    }
}

/// Whether no two proposals concern one collection.
pub open spec fn one_per_collection(proposals: Map<u64, ProposalView>) -> bool {
    forall|a: u64, b: u64|
        #![trigger proposals[a], proposals[b]]
        proposals.contains_key(a) && proposals.contains_key(b) && proposals[a].collection_id
            == proposals[b].collection_id ==> a == b
}

/// Whether every proposal says what its key says, and no two of them concern one collection.
pub open spec fn are_kept_by_collection(proposals: Map<u64, ProposalView>) -> bool {
    &&& forall|id: u64| #[trigger]
        proposals.contains_key(id) ==> proposals[id].proposal_id == id
    &&& one_per_collection(proposals)
}

impl ProposalView {
    /// Whether nobody is listed twice and no more are listed than may be, only owners have voted, and
    /// nobody's vote counts twice.
    pub open spec fn is_fair(self, max_owners: u32) -> bool {
        &&& self.owners.no_duplicates()
        &&& self.owners.len() <= max_owners
        &&& self.aye.no_duplicates()
        &&& self.nay.no_duplicates()
        &&& forall|a: AccountId| #[trigger]
            self.aye.contains(a) ==> self.owners.contains(a) && !self.nay.contains(a)
        &&& forall|a: AccountId| #[trigger] self.nay.contains(a) ==> self.owners.contains(a)
    }
}

impl Pallet {
    /// A pallet that nobody has called yet.
    pub fn new(config: Config) -> (r: Self)
        ensures
            r@ == Storage::initial(config),
            r@.is_sound(),
    {
        let r = Pallet {
            config,
            sent_assets: Table::new(),
            received_assets: Table::new(),
            received_collections: Table::new(),
            next_proposal_id: 0,
            cross_chain_proposals: Table::new(),
        };
        r
    }
}

/// The account that signed a call.
pub fn ensure_signed(origin: Origin) -> (r: Result<AccountId, Failure>)
    ensures
        match origin {
            Origin::Signed(who) => r == Ok::<AccountId, Failure>(who),
            _ => r == Err::<AccountId, Failure>(Failure::BadOrigin),
        },
{
    match origin {
        Origin::Signed(who) => Ok(who),
        _ => Err(Failure::BadOrigin),
    }
}

/// The bytes of metadata that may be missing.
pub open spec fn bytes_or_none(metadata: Option<&[u8]>) -> Seq<u8> {
    match metadata {
        Some(data) => data@,
        None => Seq::empty(),
    }
}

/// Metadata, or no bytes where there is none.
pub fn metadata_or_empty<'a>(metadata: Option<&'a [u8]>) -> (r: &'a [u8])
    ensures
        r@ == bytes_or_none(metadata),
{
    match metadata {
        Some(data) => data,
        None => &[],
    }
}

} // verus!
