//! Taking items, and collections with items, that another chain sent.
use sp_runtime::DispatchError;
use vstd::prelude::*;

use crate::laws::{lemma_stays_sound, Operation};
use crate::message::{Caller, Dispatch, NftsCall};
use crate::outside::{increment, initial_collection_id};
use crate::pallet::{Pallet, Storage};
use crate::receive::{Attempt, Attempted};
use crate::types::{
    AccountId, Address, AssetKey, CollectionConfigFor, CollectionId, Error, Event, Failure, ItemId,
    ParachainID, ReceivedCols, ReceivedStruct,
};

verus! {

/// An item on its way in.
#[derive(Clone, Copy, PartialEq, Debug)]
pub struct IncomingNft<'a> {
    pub owner: Address<'a>,
    /// Where it is to arrive.
    pub asset: AssetKey,
    pub data: &'a [u8],
    pub mint_to: Address<'a>,
    /// Where it was on the chain that sent it.
    pub origin: AssetKey,
    pub origin_chain: ParachainID,
}

/// What becomes of an item that was not refused.
#[allow(inconsistent_fields)]
#[derive(PartialEq, Debug)]
pub enum NftArrival<'a> {
    /// The item was made here: its metadata is to be set again, and the outcome handed to
    /// [`Pallet::parse_nft_transfer_returned`].
    Returned { set_metadata: Attempted<'a>, incoming: IncomingNft<'a> },
    /// The item is to be minted, its metadata set where it has any, and both outcomes handed to
    /// [`Pallet::parse_nft_transfer_minted`].
    New {
        mint: Attempted<'a>,
        set_metadata: Option<Attempted<'a>>,
        incoming: IncomingNft<'a>,
    },
}

/// Why an item is refused.
pub open spec fn arrival_failure(
    storage: Storage,
    asset: AssetKey,
    collection_owner: Option<AccountId>,
    item_exists: bool,
    account: Option<AccountId>,
) -> Option<Failure> {
    if collection_owner is None {
        Some(Failure::Module(Error::CollectionDoesNotExist))
    } else if item_exists {
        Some(Failure::Module(Error::NFTExists))
    } else if storage.received_assets.contains_key(asset) {
        Some(Failure::Module(Error::NFTAlreadyReceived))
    } else if account is None {
        Some(Failure::CannotLookup)
    } else if collection_owner->0 != account->0 {
        Some(Failure::Module(Error::NotCollectionOwner))
    } else {
        None
    }
}

impl Storage {
    /// Whether an asset was made here and then sent away.
    pub open spec fn is_away(self, asset: AssetKey) -> bool {
        self.sent_assets.contains_key(asset) && self.sent_assets[asset].origin_para_id
            == self.config.parachain_id
    }

    /// The storage once an asset is no longer known as sent.
    pub open spec fn without_sent_asset(self, asset: AssetKey) -> Storage {
        Storage { sent_assets: self.sent_assets.remove(asset), ..self }
    }

    /// The storage once an item has arrived, which then no longer is known as sent.
    pub open spec fn with_received_asset(self, incoming: IncomingNft) -> Storage {
        Storage {
            sent_assets: self.sent_assets.remove(incoming.asset),
            received_assets: self.received_assets.insert(
                incoming.asset,
                ReceivedStruct {
                    origin_para_id: incoming.origin_chain,
                    origin_collection_id: incoming.origin.collection,
                    origin_asset_id: incoming.origin.item,
                    received_collection_id: incoming.asset.collection,
                    received_asset_id: incoming.asset.item,
                },
            ),
            ..self
        }
    }

    /// The storage once a collection has arrived.
    pub open spec fn with_received_collection(
        self,
        collection: CollectionId,
        origin_para: ParachainID,
        origin_collection_id: CollectionId,
    ) -> Storage {
        Storage {
            received_collections: self.received_collections.insert(
                collection,
                ReceivedCols {
                    origin_para_id: origin_para,
                    origin_collection_id,
                    received_collection_id: collection,
                },
            ),
            ..self
        }
    }
}

/// The minting of an item by `who`.
pub open spec fn mint_attempt<'a>(
    who: AccountId,
    asset: AssetKey,
    mint_to: Address<'a>,
    owner: Address<'a>,
) -> Attempted<'a> {
    let collection = asset.collection;
    let item = asset.item;
    Attempted {
        dispatch: Dispatch {
            origin: Caller::Signed(who),
            call: NftsCall::Mint { collection, item, mint_to },
        },
        attempt: Attempt::Mint { collection, item, owner },
    }
}

/// The setting of an item's metadata by `who`.
pub open spec fn metadata_attempt<'a>(
    who: AccountId,
    asset: AssetKey,
    data: &'a [u8],
    owner: Address<'a>,
) -> Attempted<'a> {
    let collection = asset.collection;
    let item = asset.item;
    Attempted {
        dispatch: Dispatch {
            origin: Caller::Signed(who),
            call: NftsCall::SetMetadata { collection, item, data },
        },
        attempt: Attempt::SetMetadata { collection, item, owner },
    }
}

fn attempt_mint<'a>(who: AccountId, asset: AssetKey, mint_to: Address<'a>, owner: Address<'a>) -> (r:
    Attempted<'a>)
    ensures
        r == mint_attempt(who, asset, mint_to, owner),
{
    let collection = asset.collection;
    let item = asset.item;
    Attempted {
        dispatch: Dispatch {
            origin: Caller::Signed(who),
            call: NftsCall::Mint { collection, item, mint_to },
        },
        attempt: Attempt::Mint { collection, item, owner },
    }
}

fn attempt_metadata<'a>(who: AccountId, asset: AssetKey, data: &'a [u8], owner: Address<'a>) -> (r:
    Attempted<'a>)
    ensures
        r == metadata_attempt(who, asset, data, owner),
{
    let collection = asset.collection;
    let item = asset.item;
    Attempted {
        dispatch: Dispatch {
            origin: Caller::Signed(who),
            call: NftsCall::SetMetadata { collection, item, data },
        },
        attempt: Attempt::SetMetadata { collection, item, owner },
    }
}

/// What is told of the outcomes of a minting and of the setting of metadata, in order.
pub open spec fn mint_reports<'a>(
    asset: AssetKey,
    owner: Address<'a>,
    data: Seq<u8>,
    minted: Result<(), DispatchError>,
    metadata_set: Result<(), DispatchError>,
) -> Seq<Event<'a>> {
    let collection = asset.collection;
    let item = asset.item;
    let of_mint = match (Attempt::Mint { collection, item, owner }).report(minted) {
        Some(event) => seq![event],
        None => Seq::empty(),
    };
    let of_metadata = match (Attempt::SetMetadata { collection, item, owner }).report(metadata_set) {
        Some(event) => if data.len() > 0 {
            seq![event]
        } else {
            Seq::empty()
        },
        None => Seq::empty(),
    };
    of_mint + of_metadata
}

fn report_mint<'a>(
    asset: AssetKey,
    owner: Address<'a>,
    data: &[u8],
    minted: Result<(), DispatchError>,
    metadata_set: Result<(), DispatchError>,
) -> (r: Vec<Event<'a>>)
    ensures
        r@ == mint_reports(asset, owner, data@, minted, metadata_set),
{
    let collection = asset.collection;
    let item = asset.item;
    let mut events: Vec<Event<'a>> = Vec::new();
    match (Attempt::Mint { collection, item, owner }).finished(minted) {
        Some(event) => events.push(event),
        None => {},
    }
    if data.len() > 0 {
        match (Attempt::SetMetadata { collection, item, owner }).finished(metadata_set) {
            Some(event) => events.push(event),
            None => {},
        }
    }
    events
}

impl Pallet {
    /// Takes an item that another chain sent.
    ///
    /// `collection_owner` is who owns the collection into which it is to come, if the chain knows
    /// that collection, `item_exists` says whether the item already exists there, and `account` is
    /// the account to which the chain resolves the address of the owner.
    pub fn parse_nft_transfer<'a>(
        &self,
        owner: Address<'a>,
        collection: CollectionId,
        item: ItemId,
        data: &'a [u8],
        mint_to: Address<'a>,
        origin_collection: CollectionId,
        origin_item: ItemId,
        origin_chain: ParachainID,
        collection_owner: Option<AccountId>,
        item_exists: bool,
        account: Option<AccountId>,
    ) -> (r: Result<NftArrival<'a>, Failure>)
        ensures
            ({
                let asset = AssetKey { collection, item };
                let arriving = IncomingNft {
                    owner,
                    asset,
                    data,
                    mint_to,
                    origin: AssetKey { collection: origin_collection, item: origin_item },
                    origin_chain,
                };
                match arrival_failure(self@, asset, collection_owner, item_exists, account) {
                    Some(failure) => {
                        &&& r matches Err(f)
                        &&& f == failure
                    },
                    None => if self@.is_away(asset) {
                        &&& r matches Ok(NftArrival::Returned { set_metadata, incoming })
                        &&& set_metadata == metadata_attempt(account->0, asset, data, owner)
                        &&& incoming == arriving
                    } else {
                        &&& r matches Ok(NftArrival::New { mint, set_metadata, incoming })
                        &&& mint == mint_attempt(account->0, asset, mint_to, owner)
                        &&& set_metadata == if data@.len() > 0 {
                            Some(metadata_attempt(account->0, asset, data, owner))
                        } else {
                            None
                        }
                        &&& incoming == arriving
                    },
                }
            }),
            r is Ok <==> collection_owner is Some && !item_exists
                && !self@.received_assets.contains_key(AssetKey { collection, item })
                && account is Some && collection_owner->0 == account->0,
    {
        let col_owner = match collection_owner {
            Some(col_owner) => col_owner,
            None => {
                return Err(Failure::Module(Error::CollectionDoesNotExist));
            },
        };
        if item_exists {
            return Err(Failure::Module(Error::NFTExists));
        }
        let asset = AssetKey { collection, item };
        if self.received_assets.contains_key(asset) {
            return Err(Failure::Module(Error::NFTAlreadyReceived));
        }
        let who = match account {
            Some(who) => who,
            None => {
                return Err(Failure::CannotLookup);
            },
        };
        if col_owner != who {
            return Err(Failure::Module(Error::NotCollectionOwner));
        }
        let incoming = IncomingNft {
            owner,
            asset,
            data,
            mint_to,
            origin: AssetKey { collection: origin_collection, item: origin_item },
            origin_chain,
        };
        let is_away = match self.sent_assets.get(asset) {
            Some(sent) => sent.origin_para_id == self.config.parachain_id,
            None => false,
        };
        if is_away {
            return Ok(
                NftArrival::Returned {
                    set_metadata: attempt_metadata(who, asset, data, owner),
                    incoming,
                },
            );
        }
        Ok(
            NftArrival::New {
                mint: attempt_mint(who, asset, mint_to, owner),
                set_metadata: if data.len() > 0 {
                    Some(attempt_metadata(who, asset, data, owner))
                } else {
                    None
                },
                incoming,
            },
        )
    }

    /// Ends the arrival of an item that was made here.
    ///
    /// `metadata_set` is the outcome of setting its metadata, `mint_to_account` the account to which
    /// the chain resolves the address of the receiver. A failure to set the metadata is told first,
    /// and is no reason to refuse the item.
    pub fn parse_nft_transfer_returned<'a>(
        &mut self,
        incoming: IncomingNft<'a>,
        metadata_set: Result<(), DispatchError>,
        mint_to_account: Option<AccountId>,
    ) -> (r: Result<Vec<Event<'a>>, Failure>)
        ensures
            final(self)@ == if mint_to_account is Some {
                old(self)@.without_sent_asset(incoming.origin)
            } else {
                old(self)@
            },
            old(self)@.is_sound() ==> final(self)@.is_sound(),
            match mint_to_account {
                Some(account) => {
                    let report = (Attempt::SetMetadata {
                        collection: incoming.asset.collection,
                        item: incoming.asset.item,
                        owner: incoming.owner,
                    }).report(metadata_set);
                    let event = Event::NFTReturnedToOrigin {
                        origin_collection_id: incoming.origin.collection,
                        origin_asset_id: incoming.origin.item,
                        returned_from_collection_id: incoming.asset.collection,
                        returned_from_asset_id: incoming.asset.item,
                        to_address: account,
                    };
                    &&& r matches Ok(events)
                    &&& events@ == match report {
                        Some(failed) => seq![failed, event],
                        None => seq![event],
                    }
                },
                None => r matches Err(failure) && failure == Failure::CannotLookup,
            },
    {
        let account = match mint_to_account {
            Some(account) => account,
            None => {
                return Err(Failure::CannotLookup);
            },
        };
        let mut events: Vec<Event<'a>> = Vec::new();
        let report = (Attempt::SetMetadata {
            collection: incoming.asset.collection,
            item: incoming.asset.item,
            owner: incoming.owner,
        }).finished(metadata_set);
        match report {
            Some(failed) => events.push(failed),
            None => {},
        }
        proof {
            lemma_stays_sound(self@, Operation::NftReturned { origin: incoming.origin });
        }
        let _ = self.sent_assets.remove(incoming.origin);
        events.push(
            Event::NFTReturnedToOrigin {
                origin_collection_id: incoming.origin.collection,
                origin_asset_id: incoming.origin.item,
                returned_from_collection_id: incoming.asset.collection,
                returned_from_asset_id: incoming.asset.item,
                to_address: account,
            },
        );
        Ok(events)
    }

    /// Ends the arrival of an item that was to be minted.
    ///
    /// `minted` and `metadata_set` are the outcomes of minting it and of setting its metadata, and
    /// `item_exists` says whether the item now exists. Failures among the two are told first, and by
    /// themselves are no reason to refuse the item.
    pub fn parse_nft_transfer_minted<'a>(
        &mut self,
        incoming: IncomingNft<'a>,
        minted: Result<(), DispatchError>,
        metadata_set: Result<(), DispatchError>,
        item_exists: bool,
    ) -> (r: Result<Vec<Event<'a>>, Failure>)
        ensures
            old(self)@.is_sound() ==> final(self)@.is_sound(),
            if item_exists {
                &&& final(self)@ == old(self)@.with_received_asset(incoming)
                &&& r matches Ok(events)
                &&& events@ == mint_reports(
                    incoming.asset,
                    incoming.owner,
                    incoming.data@,
                    minted,
                    metadata_set,
                ).push(
                    Event::NFTReceived {
                        origin_collection_id: incoming.origin.collection,
                        origin_asset_id: incoming.origin.item,
                        received_collection_id: incoming.asset.collection,
                        received_asset_id: incoming.asset.item,
                        to_address: incoming.mint_to,
                    },
                )
            } else {
                &&& final(self)@ == old(self)@
                &&& r matches Err(failure)
                &&& failure == Failure::Module(Error::NFTDoesNotExist)
            },
    {
        if !item_exists {
            return Err(Failure::Module(Error::NFTDoesNotExist));
        }
        let mut events = report_mint(
            incoming.asset,
            incoming.owner,
            incoming.data,
            minted,
            metadata_set,
        );
        proof {
            lemma_stays_sound(self@, Operation::NftArrived { incoming });
        }
        let _ = self.sent_assets.remove(incoming.asset);
        self.received_assets.insert(
            incoming.asset,
            ReceivedStruct {
                origin_para_id: incoming.origin_chain,
                origin_collection_id: incoming.origin.collection,
                origin_asset_id: incoming.origin.item,
                received_collection_id: incoming.asset.collection,
                received_asset_id: incoming.asset.item,
            },
        );
        events.push(
            Event::NFTReceived {
                origin_collection_id: incoming.origin.collection,
                origin_asset_id: incoming.origin.item,
                received_collection_id: incoming.asset.collection,
                received_asset_id: incoming.asset.item,
                to_address: incoming.mint_to,
            },
        );
        Ok(events)
    }
}

/// The items that a collection brings, each with its metadata.
#[derive(Clone, Copy, PartialEq, Debug)]
pub enum IncomingItems<'a> {
    /// All of them are for the owner of the collection.
    SameOwner(&'a [(ItemId, &'a [u8])]),
    /// Each of them is for an owner of its own.
    MultipleOwners(&'a [(ItemId, Address<'a>, &'a [u8])]),
}

impl<'a> IncomingItems<'a> {
    /// The items, each with who is to get it and its metadata, where `owner` owns the collection.
    pub open spec fn entries(self, owner: Address<'a>) -> Seq<(ItemId, Address<'a>, &'a [u8])> {
        match self {
            IncomingItems::SameOwner(nfts) => nfts@.map_values(
                |nft: (ItemId, &'a [u8])| (nft.0, owner, nft.1),
            ),
            IncomingItems::MultipleOwners(nfts) => nfts@,
        }
    }

    /// The number of items.
    fn len(self, owner: Address<'a>) -> (r: usize)
        ensures
            r == self.entries(owner).len(),
    {
        match self {
            IncomingItems::SameOwner(nfts) => nfts.len(),
            IncomingItems::MultipleOwners(nfts) => nfts.len(),
        }
    }

    /// The item at an index.
    fn get(self, owner: Address<'a>, i: usize) -> (r: (ItemId, Address<'a>, &'a [u8]))
        requires
            i < self.entries(owner).len(),
        ensures
            r == self.entries(owner)[i as int],
            self.entries(owner).len() <= usize::MAX,
    {
        match self {
            IncomingItems::SameOwner(nfts) => (nfts[i].0, owner, nfts[i].1),
            IncomingItems::MultipleOwners(nfts) => nfts[i],
        }
    }
}

/// Items without who is to get them.
pub open spec fn with_metadata<'a>(entries: Seq<(ItemId, Address<'a>, &'a [u8])>) -> Seq<
    (ItemId, &'a [u8]),
> {
    entries.map_values(|entry: (ItemId, Address<'a>, &'a [u8])| (entry.0, entry.2))
}

/// A collection with items on its way in.
#[derive(Clone, Copy, PartialEq, Debug)]
pub struct IncomingCollection<'a> {
    pub owner: Address<'a>,
    pub collection_metadata: &'a [u8],
    pub nfts: IncomingItems<'a>,
    pub origin_para: ParachainID,
    pub origin_collection_id: CollectionId,
}

impl<'a> IncomingCollection<'a> {
    /// The items, each with who is to get it and its metadata.
    pub open spec fn entries(self) -> Seq<(ItemId, Address<'a>, &'a [u8])> {
        self.nfts.entries(self.owner)
    }

    /// The items, each with its metadata.
    fn collect_items(self) -> (r: Vec<(ItemId, &'a [u8])>)
        ensures
            r@ == with_metadata(self.entries()),
    {
        let count = self.nfts.len(self.owner);
        let mut items: Vec<(ItemId, &'a [u8])> = Vec::new();
        let mut i: usize = 0;
        while i < count
            invariant
                i <= count,
                count == self.entries().len(),
                items@ =~= with_metadata(self.entries().take(i as int)),
            decreases count - i,
        {
            let (item, _, data) = self.nfts.get(self.owner, i);
            items.push((item, data));
            i += 1;
        }
        assert(self.entries().take(count as int) =~= self.entries());
        items
    }
}

/// A collection that was created for one on its way in, as far as its items have been minted.
#[derive(Clone, Copy, PartialEq, Debug)]
pub struct CollectionArrival<'a> {
    pub who: AccountId,
    pub incoming: IncomingCollection<'a>,
    /// The identifier that the collection has here.
    pub collection: CollectionId,
    /// How many of the items have been minted.
    pub minted: usize,
}

/// What is to be done next for a collection on its way in.
#[derive(PartialEq, Debug)]
pub enum ArrivalStep<'a> {
    /// The next item is to be minted, its metadata set where it has any, and both outcomes handed
    /// to [`CollectionArrival::item_minted`].
    Mint { mint: Attempted<'a>, set_metadata: Option<Attempted<'a>> },
    /// The collection has arrived.
    Done(Event<'a>),
}

/// How many collections, from `first` on, are looked at in search of one of an account: those below
/// the identifier that the next collection will get, as far as their owners are known.
pub open spec fn searched(owners: Seq<AccountId>, first: CollectionId, next: CollectionId) -> int {
    if first <= next && next - first <= owners.len() {
        next - first
    } else {
        owners.len() as int
    }
}

/// The collection that was made for `who`: the first one of theirs among those that are looked at,
/// and `first` where there is none.
pub open spec fn collection_of(
    owners: Seq<AccountId>,
    first: CollectionId,
    next: Option<CollectionId>,
    who: AccountId,
) -> CollectionId {
    let candidates = owners.take(searched(owners, first, next->0));
    if owners[0] != who && candidates.contains(who) {
        (first + candidates.index_of_first(who)->0) as u32
    } else {
        first
    }
}

/// Whether the owners of enough collections are known to find one of `who`.
pub open spec fn are_owners_known(
    owners: Seq<AccountId>,
    first: CollectionId,
    next: Option<CollectionId>,
    who: AccountId,
) -> bool {
    &&& owners.len() > 0
    &&& first + owners.len() <= u32::MAX + 1
    &&& owners[0] != who && next is Some ==> {
        ||| first <= next->0 && next->0 - first <= owners.len()
        ||| owners.contains(who)
    }
}

impl<'a> CollectionArrival<'a> {
    /// The item that comes next.
    pub open spec fn next_asset(self) -> AssetKey {
        AssetKey {
            collection: self.collection,
            item: self.incoming.entries()[self.minted as int].0,
        }
    }

    /// Who is to get the item that comes next.
    pub open spec fn next_receiver(self) -> Address<'a> {
        self.incoming.entries()[self.minted as int].1
    }

    /// The metadata of the item that comes next.
    pub open spec fn next_data(self) -> &'a [u8] {
        self.incoming.entries()[self.minted as int].2
    }

    /// Goes on with a collection once its next item was to be minted.
    ///
    /// `minted` and `metadata_set` are the outcomes of minting it and of setting its metadata, and
    /// `item_exists` says whether the item now exists. The events tell of the failures among the two,
    /// which by themselves are no reason to refuse the collection.
    pub fn item_minted(
        self,
        minted: Result<(), DispatchError>,
        metadata_set: Result<(), DispatchError>,
        item_exists: bool,
    ) -> (r: Result<(Vec<Event<'a>>, CollectionArrival<'a>), Failure>)
        requires
            self.minted < self.incoming.entries().len(),
        ensures
            if item_exists {
                &&& r matches Ok((events, arrival))
                &&& events@ == mint_reports(
                    self.next_asset(),
                    self.incoming.owner,
                    self.next_data()@,
                    minted,
                    metadata_set,
                )
                &&& arrival == (CollectionArrival { minted: (self.minted + 1) as usize, ..self })
            } else {
                &&& r matches Err(failure)
                &&& failure == Failure::Module(Error::NFTDoesNotExist)
            },
    {
        if !item_exists {
            return Err(Failure::Module(Error::NFTDoesNotExist));
        }
        let (item, _, data) = self.incoming.nfts.get(self.incoming.owner, self.minted);
        let asset = AssetKey { collection: self.collection, item };
        let events = report_mint(asset, self.incoming.owner, data, minted, metadata_set);
        Ok((events, CollectionArrival { minted: self.minted + 1, ..self }))
    }
}

impl Pallet {
    /// Takes a collection that another chain sent with the items of its owner.
    ///
    /// `account` is the account to which the chain resolves the address of the owner, and
    /// `next_collection_id` the identifier that the next collection will get, if any was made yet.
    /// The collection is to be created, and the outcome handed to
    /// [`Pallet::parse_collection_created`] with the account and the identifier returned.
    pub fn parse_collection_same_owner<'a>(
        owner: Address<'a>,
        config: CollectionConfigFor,
        account: Option<AccountId>,
        next_collection_id: Option<CollectionId>,
    ) -> (r: Result<(Dispatch<'a>, AccountId, CollectionId), Failure>)
        ensures
            match account {
                Some(who) => {
                    &&& r matches Ok((create, creator, first))
                    &&& create == (Dispatch {
                        origin: Caller::Signed(who),
                        call: NftsCall::Create { admin: owner, config },
                    })
                    &&& creator == who
                    &&& first == match next_collection_id {
                        Some(id) => id,
                        None => 0,
                    }
                },
                None => r matches Err(failure) && failure == Failure::CannotLookup,
            },
    {
        let who = match account {
            Some(who) => who,
            None => {
                return Err(Failure::CannotLookup);
            },
        };
        let first = match next_collection_id {
            Some(id) => id,
            None => initial_collection_id().unwrap(),
        };
        let create = Dispatch {
            origin: Caller::Signed(who),
            call: NftsCall::Create { admin: owner, config },
        };
        Ok((create, who, first))
    }

    /// Takes a collection that another chain sent with the items of several owners.
    ///
    /// It takes what [`Pallet::parse_collection_same_owner`] takes, and goes on in the same way.
    pub fn parse_collection_multiple_owners<'a>(
        owner: Address<'a>,
        config: CollectionConfigFor,
        account: Option<AccountId>,
        next_collection_id: Option<CollectionId>,
    ) -> (r: Result<(Dispatch<'a>, AccountId, CollectionId), Failure>)
        ensures
            match account {
                Some(who) => {
                    &&& r matches Ok((create, creator, first))
                    &&& create == (Dispatch {
                        origin: Caller::Signed(who),
                        call: NftsCall::Create { admin: owner, config },
                    })
                    &&& creator == who
                    &&& first == match next_collection_id {
                        Some(id) => id,
                        None => 0,
                    }
                },
                None => r matches Err(failure) && failure == Failure::CannotLookup,
            },
    {
        Pallet::parse_collection_same_owner(owner, config, account, next_collection_id)
    }

    /// Finds the collection that was created for one on its way in.
    ///
    /// `created` is the outcome of creating it, `owners` are the owners of the collections from
    /// `first` on, and `next_collection_id` is the identifier that the next collection now will get.
    /// The metadata of the collection is to be set where it has any, and the arrival then handed to
    /// [`Pallet::parse_collection_next`] until it is done.
    pub fn parse_collection_created<'a>(
        incoming: IncomingCollection<'a>,
        who: AccountId,
        first: CollectionId,
        created: Result<(), DispatchError>,
        owners: &[AccountId],
        next_collection_id: Option<CollectionId>,
    ) -> (r: Result<(Option<Attempted<'a>>, CollectionArrival<'a>), Failure>)
        requires
            created is Ok ==> are_owners_known(owners@, first, next_collection_id, who),
        ensures
            match created {
                Err(error) => r matches Err(failure) && failure == Failure::Nfts(error),
                Ok(()) => if owners@[0] != who && next_collection_id is None {
                    r matches Err(failure) && failure == Failure::Module(Error::NoNextCollectionId)
                } else {
                    let collection = collection_of(owners@, first, next_collection_id, who);
                    let owner = incoming.owner;
                    &&& r matches Ok((set_metadata, arrival))
                    &&& set_metadata == if incoming.collection_metadata@.len() > 0 {
                        Some(
                            Attempted {
                                dispatch: Dispatch {
                                    origin: Caller::Signed(who),
                                    call: NftsCall::SetCollectionMetadata {
                                        collection,
                                        data: incoming.collection_metadata,
                                    },
                                },
                                attempt: Attempt::SetCollectionMetadata { collection, owner },
                            },
                        )
                    } else {
                        None
                    }
                    &&& arrival == (CollectionArrival { who, incoming, collection, minted: 0 })
                },
            },
    {
        match created {
            Ok(()) => {},
            Err(error) => {
                return Err(Failure::Nfts(error));
            },
        }
        let collection = match find_collection(owners, first, next_collection_id, who) {
            Some(collection) => collection,
            None => {
                return Err(Failure::Module(Error::NoNextCollectionId));
            },
        };
        let set_metadata = if incoming.collection_metadata.len() > 0 {
            Some(
                Attempted {
                    dispatch: Dispatch {
                        origin: Caller::Signed(who),
                        call: NftsCall::SetCollectionMetadata {
                            collection,
                            data: incoming.collection_metadata,
                        },
                    },
                    attempt: Attempt::SetCollectionMetadata { collection, owner: incoming.owner },
                },
            )
        } else {
            None
        };
        Ok((set_metadata, CollectionArrival { who, incoming, collection, minted: 0 }))
    }

    /// Says what is to be done next for a collection on its way in, and remembers the collection
    /// once all its items have been minted.
    pub fn parse_collection_next<'a>(&mut self, arrival: CollectionArrival<'a>) -> (r:
        ArrivalStep<'a>)
        ensures
            old(self)@.is_sound() ==> final(self)@.is_sound(),
            if arrival.minted < arrival.incoming.entries().len() {
                &&& final(self)@ == old(self)@
                &&& r matches ArrivalStep::Mint { mint, set_metadata }
                &&& mint == mint_attempt(
                    arrival.who,
                    arrival.next_asset(),
                    arrival.next_receiver(),
                    arrival.incoming.owner,
                )
                &&& set_metadata == if arrival.next_data()@.len() > 0 {
                    Some(
                        metadata_attempt(
                            arrival.who,
                            arrival.next_asset(),
                            arrival.next_data(),
                            arrival.incoming.owner,
                        ),
                    )
                } else {
                    None
                }
            } else {
                &&& final(self)@ == old(self)@.with_received_collection(
                    arrival.collection,
                    arrival.incoming.origin_para,
                    arrival.incoming.origin_collection_id,
                )
                &&& r matches ArrivalStep::Done(
                    Event::CollectionWithNftsReceived { collection_id, items },
                )
                &&& collection_id == arrival.collection
                &&& items@ == with_metadata(arrival.incoming.entries())
            },
    {
        let nfts = arrival.incoming.nfts;
        let owner = arrival.incoming.owner;
        if arrival.minted < nfts.len(owner) {
            let (item, receiver, data) = nfts.get(owner, arrival.minted);
            let asset = AssetKey { collection: arrival.collection, item };
            return ArrivalStep::Mint {
                mint: attempt_mint(arrival.who, asset, receiver, owner),
                set_metadata: if data.len() > 0 {
                    Some(attempt_metadata(arrival.who, asset, data, owner))
                } else {
                    None
                },
            };
        }
        proof {
            lemma_stays_sound(
                self@,
                Operation::CollectionArrived {
                    collection: arrival.collection,
                    origin_para: arrival.incoming.origin_para,
                    origin_collection_id: arrival.incoming.origin_collection_id,
                },
            );
        }
        self.received_collections.insert(
            arrival.collection,
            ReceivedCols {
                origin_para_id: arrival.incoming.origin_para,
                origin_collection_id: arrival.incoming.origin_collection_id,
                received_collection_id: arrival.collection,
            },
        );
        ArrivalStep::Done(
            Event::CollectionWithNftsReceived {
                collection_id: arrival.collection,
                items: arrival.incoming.collect_items(),
            },
        )
    }
}

/// Finds the collection that was made for `who`, or none where one has to be looked for and it is
/// not known how far.
fn find_collection(
    owners: &[AccountId],
    first: CollectionId,
    next: Option<CollectionId>,
    who: AccountId,
) -> (r: Option<CollectionId>)
    requires
        are_owners_known(owners@, first, next, who),
    ensures
        r == if owners@[0] != who && next is None {
            None
        } else {
            Some(collection_of(owners@, first, next, who))
        },
{
    if owners[0] == who {
        return Some(first);
    }
    let end = match next {
        Some(end) => end,
        None => {
            return None;
        },
    };
    let ghost candidates = owners@.take(searched(owners@, first, end));
    let mut id: CollectionId = first;
    let mut i: usize = 0;
    while id != end
        invariant
            next == Some(end),
            are_owners_known(owners@, first, next, who),
            owners@[0] != who,
            candidates == owners@.take(searched(owners@, first, end)),
            i <= candidates.len(),
            id == if first + i <= u32::MAX { first + i } else { u32::MAX as int },
            forall|j: int| 0 <= j < i ==> candidates[j] != who,
        decreases candidates.len() - i,
    {
        proof {
            if i == candidates.len() {
                assert(owners@.take(owners@.len() as int) =~= owners@);
            }
        }
        if owners[i] == who {
            proof {
                assert(candidates[i as int] == who);
                candidates.index_of_first_ensures(who);
            }
            return Some(id);
        }
        id = match increment(id) {
            Some(id) => id,
            None => {
                return None;
            },
        };
        i += 1;
    }
    Some(first)
}

/// A collection that was looked for and found belongs to the account for which it was made.
pub proof fn law_found_collection_belongs_to_its_owner(
    owners: Seq<AccountId>,
    first: CollectionId,
    next: CollectionId,
    who: AccountId,
)
    requires
        are_owners_known(owners, first, Some(next), who),
        owners[0] == who || owners.take(searched(owners, first, next)).contains(who),
    ensures
        ({
            let found = collection_of(owners, first, Some(next), who);
            first <= found < first + owners.len() && owners[found - first] == who
        }),
{
    owners.take(searched(owners, first, next)).index_of_first_ensures(who);
}

} // verus!
