//! Sending a collection to another chain.
use staging_xcm::latest::SendError;
use vstd::prelude::*;

use crate::laws::{
    law_transfer_keeps_one_proposal_per_collection, lemma_stays_sound, Operation,
};
use crate::message::{Call, Caller, Dispatch, Effect, Message, NftsCall, RemoteCall};
use crate::outside::{accounts, as_slice, no_accounts, try_push, without, AccountList};
use crate::pallet::{
    are_kept_by_collection, bytes_or_none, ensure_signed, metadata_or_empty, Pallet, Storage,
};
use crate::types::{
    AccountId, Address, Balance, BlockNumber, CollectionConfigFor, CollectionId, CollectionState,
    Error, Event, Failure, ItemId, ItemState, Origin, ParachainID, Proposal, ProposalView, Votes,
};

verus! {

/// The accounts of a sequence, each once, in the order in which they come first.
pub open spec fn distinct(s: Seq<AccountId>) -> Seq<AccountId>
    decreases s.len(),
{
    if s.len() == 0 {
        s
    } else {
        let before = distinct(s.drop_last());
        if before.contains(s.last()) {
            before
        } else {
            before.push(s.last())
        }
    }
}

/// The owners of items that do not belong to `owner`, item by item.
pub open spec fn foreign_owners(items: Seq<ItemState>, owner: AccountId) -> Seq<AccountId> {
    without(items.map_values(|item: ItemState| item.owner), owner)
}

/// As many of the first accounts as may be listed.
pub open spec fn bounded(s: Seq<AccountId>, max_owners: u32) -> Seq<AccountId> {
    if s.len() <= max_owners {
        s
    } else {
        s.take(max_owners as int)
    }
}

/// Who may vote on the transfer of a collection: everybody who owns one of its items, and its owner
/// last, as far as they may be listed.
pub open spec fn voters(
    items: Seq<ItemState>,
    owner: AccountId,
    max_owners: u32,
) -> Seq<AccountId> {
    bounded(distinct(foreign_owners(items, owner)).push(owner), max_owners)
}

/// Whether somebody but `owner` owns one of the items.
pub open spec fn has_foreign_owner(items: Seq<ItemState>, owner: AccountId) -> bool {
    exists|i: int| 0 <= i < items.len() && (#[trigger] items[i]).owner != owner
}

/// The identifiers of items.
pub open spec fn item_ids(items: Seq<ItemState>) -> Seq<ItemId> {
    items.map_values(|item: ItemState| item.id)
}

/// The proposal identifier that follows `id`.
pub open spec fn following_proposal_id(id: u64) -> u64 {
    if id == u64::MAX {
        1
    } else {
        (id + 1) as u64
    }
}

/// Why an account may not send a collection.
pub open spec fn transfer_failure(
    storage: Storage,
    origin: Origin,
    origin_collection: CollectionId,
    collection: Option<CollectionState>,
    destination: Option<AccountId>,
) -> Option<Failure> {
    match (origin, collection) {
        (Origin::Signed(who), Some(c)) => if c.owner != who {
            Some(Failure::Module(Error::NotCollectionOwner))
        } else if !has_foreign_owner(c.items@, who) {
            None
        } else if storage.has_proposal_for(origin_collection) {
            Some(Failure::Module(Error::ProposalAlreadyExists))
        } else if destination is None {
            Some(Failure::CannotLookup)
        } else {
            None
        },
        (Origin::Signed(_), None) => Some(Failure::Module(Error::CollectionDoesNotExist)),
        _ => Some(Failure::BadOrigin),
    }
}

impl Storage {
    /// Whether there is a proposal to move `collection`.
    pub open spec fn has_proposal_for(self, collection: CollectionId) -> bool {
        exists|id: u64|
            self.proposals.contains_key(id) && (#[trigger] self.proposals[id]).collection_id
                == collection
    }

    /// The storage once `proposal` has been made.
    pub open spec fn with_proposal(self, proposal: ProposalView) -> Storage {
        Storage {
            proposals: self.proposals.insert(self.next_proposal_id, proposal),
            next_proposal_id: following_proposal_id(self.next_proposal_id),
            ..self
        }
    }

    /// The storage once `collection` is no longer known as received.
    pub open spec fn without_received_collection(self, collection: CollectionId) -> Storage {
        Storage { received_collections: self.received_collections.remove(collection), ..self }
    }
}

/// The proposal that a transfer makes.
pub open spec fn new_proposal(
    storage: Storage,
    origin_collection: CollectionId,
    owner: AccountId,
    items: Seq<ItemState>,
    destination_para: ParachainID,
    destination: AccountId,
    config: CollectionConfigFor,
    block_number: BlockNumber,
) -> ProposalView {
    ProposalView {
        proposal_id: storage.next_proposal_id,
        collection_id: origin_collection,
        proposed_collection_owner: destination,
        proposed_destination_para: destination_para,
        proposed_destination_config: config,
        owners: voters(items, owner, storage.config.max_owners),
        aye: Seq::empty(),
        nay: Seq::empty(),
        end_time: (block_number + storage.config.proposal_time_in_blocks) as u64,
    }
}

/// The storage after a call of [`Pallet::collection_x_transfer`].
pub open spec fn after_transfer(
    storage: Storage,
    origin: Origin,
    origin_collection: CollectionId,
    collection: Option<CollectionState>,
    destination_para: ParachainID,
    destination: Option<AccountId>,
    config: CollectionConfigFor,
    block_number: BlockNumber,
) -> Storage {
    match transfer_failure(storage, origin, origin_collection, collection, destination) {
        None => {
            let c = collection->0;
            if has_foreign_owner(c.items@, c.owner) {
                storage.with_proposal(
                    new_proposal(
                        storage,
                        origin_collection,
                        c.owner,
                        c.items@,
                        destination_para,
                        destination->0,
                        config,
                        block_number,
                    ),
                )
            } else {
                storage
            }
        },
        Some(_) => storage,
    }
}

/// A collection that was handed to the router and is not yet gone from here.
#[derive(PartialEq, Debug)]
pub struct PendingCollection<'a> {
    pub who: AccountId,
    pub collection: CollectionId,
    pub items: Vec<ItemId>,
    pub destination_para: ParachainID,
    pub destination_account: Address<'a>,
}

/// What becomes of a transfer that was not refused.
#[derive(PartialEq, Debug)]
pub enum CollectionTransfer<'a> {
    /// The owners of the items have to vote first.
    Proposed(Event<'a>),
    /// The message is to be sent, and the outcome handed to
    /// [`Pallet::collection_x_transfer_sent`].
    Send { message: Message<'a>, pending: PendingCollection<'a> },
}

/// What becomes of a collection once the router has answered.
#[derive(PartialEq, Debug)]
pub enum CollectionDelivery<'a> {
    /// The message did not go out, and the collection stays.
    Failed(Event<'a>),
    /// The items are to be burned, and then the collection's deposit handed to
    /// [`Pallet::collection_x_transfer_burned`].
    Delivered { burns: Vec<Effect<'a>>, pending: PendingCollection<'a> },
}

/// The call that has the destination take a collection with the items that its owner owns.
pub open spec fn is_same_owner_call(
    call: RemoteCall,
    origin_collection: CollectionId,
    collection: CollectionState,
    destination_account: Address,
    config: CollectionConfigFor,
    origin_para: ParachainID,
) -> bool {
    match call {
        RemoteCall::XcNft(
            Call::ParseCollectionSameOwner {
                owner,
                config: sent_config,
                collection_metadata,
                nfts,
                origin_para: sent_para,
                origin_collection_id,
            },
        ) => {
            &&& owner == destination_account
            &&& sent_config == config
            &&& collection_metadata@ == bytes_or_none(collection.metadata)
            &&& origin_para == sent_para
            &&& origin_collection_id == origin_collection
            &&& nfts.len() == collection.items@.len()
            &&& forall|i: int|
                0 <= i < nfts.len() ==> (#[trigger] nfts@[i]).0 == collection.items@[i].id
                    && nfts@[i].1@ == bytes_or_none(collection.items@[i].metadata)
        },
        _ => false,
    }
}

/// What the chain forgets about a collection, in order, once it has been sent away.
pub open spec fn collection_removals(
    collection: CollectionId,
    who: AccountId,
    deposit: Option<Balance>,
) -> Seq<Effect<'static>> {
    let removals = seq![
        Effect::RemoveCollection { collection },
        Effect::RemoveCollectionMetadata { collection },
        Effect::RemoveCollectionConfig { collection },
        Effect::RemoveCollectionRole { collection, who },
        Effect::RemoveCollectionAccount { who, collection },
    ];
    match deposit {
        Some(amount) => seq![Effect::Unreserve { who, amount }] + removals,
        None => removals,
    }
}

/// Appends to `effects` what the chain forgets about a collection.
pub(crate) fn push_collection_removals(
    effects: &mut Vec<Effect<'static>>,
    collection: CollectionId,
    who: AccountId,
    deposit: Option<Balance>,
)
    ensures
        final(effects)@ == old(effects)@ + collection_removals(collection, who, deposit),
{
    if let Some(amount) = deposit {
        effects.push(Effect::Unreserve { who, amount });
    }
    effects.push(Effect::RemoveCollection { collection });
    effects.push(Effect::RemoveCollectionMetadata { collection });
    effects.push(Effect::RemoveCollectionConfig { collection });
    effects.push(Effect::RemoveCollectionRole { collection, who });
    effects.push(Effect::RemoveCollectionAccount { who, collection });
}

/// Whether an account stands in a list.
pub(crate) fn contains(list: &[AccountId], account: AccountId) -> (r: bool)
    ensures
        r == list@.contains(account),
{
    let mut i: usize = 0;
    while i < list.len()
        invariant
            i <= list.len(),
            forall|j: int| 0 <= j < i ==> list@[j] != account,
        decreases list.len() - i,
    {
        if list[i] == account {
            return true;
        }
        i += 1;
    }
    false
}

/// Appends an account to a list that holds fewer than may be listed.
pub(crate) fn push_within(list: &mut AccountList, account: AccountId, max_owners: u32) -> (r: bool)
    ensures
        r == (accounts(*old(list)).len() < max_owners),
        accounts(*final(list)) == if r {
            accounts(*old(list)).push(account)
        } else {
            accounts(*old(list))
        },
{
    if as_slice(list).len() < max_owners as usize {
        try_push(list, account).is_ok()
    } else {
        false
    }
}

/// What one more item adds to the foreign owners.
pub(crate) proof fn lemma_foreign_owners_push(items: Seq<ItemState>, owner: AccountId, i: int)
    requires
        0 <= i < items.len(),
    ensures
        items[i].owner == owner ==> foreign_owners(items.take(i + 1), owner) == foreign_owners(
            items.take(i),
            owner,
        ),
        items[i].owner != owner ==> foreign_owners(items.take(i + 1), owner) == foreign_owners(
            items.take(i),
            owner,
        ).push(items[i].owner),
{
    let owners = items.take(i).map_values(|item: ItemState| item.owner);
    assert(items.take(i + 1).map_values(|item: ItemState| item.owner) =~= owners.push(
        items[i].owner,
    ));
    assert(owners.push(items[i].owner).drop_last() =~= owners);
    reveal_with_fuel(Seq::filter, 2);
}

/// Who may vote on the transfer of a collection.
fn find_voters(items: &[ItemState], owner: AccountId, max_owners: u32) -> (r: AccountList)
    ensures
        accounts(r) == voters(items@, owner, max_owners),
{
    let mut list = no_accounts();
    let mut i: usize = 0;
    while i < items.len()
        invariant
            i <= items.len(),
            accounts(list) == bounded(
                distinct(foreign_owners(items@.take(i as int), owner)),
                max_owners,
            ),
        decreases items.len() - i,
    {
        let item_owner = items[i].owner;
        let ghost before = foreign_owners(items@.take(i as int), owner);
        proof {
            lemma_foreign_owners_push(items@, owner, i as int);
        }
        if item_owner != owner {
            assert(before.push(item_owner).drop_last() =~= before);
            if !contains(as_slice(&list), item_owner) {
                let _ = push_within(&mut list, item_owner, max_owners);
            }
        }
        i += 1;
    }
    assert(items@.take(items@.len() as int) =~= items@);
    let _ = push_within(&mut list, owner, max_owners);
    list
}

impl Pallet {
    /// Whether there is a proposal to move `collection`.
    fn has_proposal_for(&self, collection: CollectionId) -> (r: bool)
        ensures
            r == self@.has_proposal_for(collection),
    {
        let count = self.cross_chain_proposals.len();
        let ghost rows = self.cross_chain_proposals.rows();
        let mut i: usize = 0;
        while i < count
            invariant
                i <= count,
                count == rows.len(),
                rows == self.cross_chain_proposals.rows(),
                crate::table::distinct_keys(rows),
                self.cross_chain_proposals@ == crate::table::rows_map(rows),
                forall|j: int| 0 <= j < i ==> (#[trigger] rows[j]).1.collection_id != collection,
            decreases count - i,
        {
            let (id, proposal) = self.cross_chain_proposals.row(i);
            if proposal.collection_id == collection {
                proof {
                    crate::table::lemma_row_of_key(rows, i as int);
                    assert(self@.proposals[id].collection_id == collection);
                }
                return true;
            }
            i += 1;
        }
        proof {
            if self@.has_proposal_for(collection) {
                let id = choose|id: u64|
                    self@.proposals.contains_key(id) && (#[trigger] self@.proposals[id]).collection_id
                        == collection;
                let j = choose|j: int| crate::table::has_key_at(rows, id, j);
                crate::table::lemma_row_of_key(rows, j);
            }
        }
        false
    }

    /// Sends a collection to another chain, or proposes to where somebody but the collection's owner
    /// owns one of its items.
    ///
    /// `collection` is what the chain stores under `origin_collection`, `destination` the account
    /// to which it resolves `destination_account`.
    pub fn collection_x_transfer<'a>(
        &mut self,
        origin: Origin,
        origin_collection: CollectionId,
        destination_para: ParachainID,
        destination_account: Address<'a>,
        config: CollectionConfigFor,
        collection: Option<CollectionState<'a>>,
        destination: Option<AccountId>,
        block_number: BlockNumber,
    ) -> (r: Result<CollectionTransfer<'a>, Failure>)
        requires
            transfer_failure(old(self)@, origin, origin_collection, collection, destination) is None
                && has_foreign_owner(collection->0.items@, collection->0.owner) ==> block_number
                + old(self)@.config.proposal_time_in_blocks <= u64::MAX,
        ensures
            final(self)@ == after_transfer(
                old(self)@,
                origin,
                origin_collection,
                collection,
                destination_para,
                destination,
                config,
                block_number,
            ),
            old(self)@.is_sound() ==> final(self)@.is_sound(),
            are_kept_by_collection(old(self)@.proposals) ==> are_kept_by_collection(
                final(self)@.proposals,
            ),
            match r {
                Err(failure) => transfer_failure(
                    old(self)@,
                    origin,
                    origin_collection,
                    collection,
                    destination,
                ) == Some(failure),
                Ok(CollectionTransfer::Proposed(event)) => {
                    &&& transfer_failure(
                        old(self)@,
                        origin,
                        origin_collection,
                        collection,
                        destination,
                    ) is None
                    &&& has_foreign_owner(collection->0.items@, collection->0.owner)
                    &&& event == (Event::CollectionTransferProposalCreated {
                        proposal_id: old(self)@.next_proposal_id,
                        collection_id: origin_collection,
                        proposer: collection->0.owner,
                        proposed_collection_owner: destination_account,
                        destination: destination_para,
                    })
                },
                Ok(CollectionTransfer::Send { message, pending }) => {
                    &&& transfer_failure(
                        old(self)@,
                        origin,
                        origin_collection,
                        collection,
                        destination,
                    ) is None
                    &&& !has_foreign_owner(collection->0.items@, collection->0.owner)
                    &&& message.is_addressed_to(destination_para)
                    &&& if collection->0.items@.len() == 0 {
                        message.call() == RemoteCall::XcNft(
                            Call::ParseCollectionEmpty {
                                origin_collection,
                                receiving_account: destination_account,
                                config,
                                origin_para: old(self)@.config.parachain_id,
                            },
                        )
                    } else {
                        is_same_owner_call(
                            message.call(),
                            origin_collection,
                            collection->0,
                            destination_account,
                            config,
                            old(self)@.config.parachain_id,
                        )
                    }
                    &&& pending.who == collection->0.owner
                    &&& pending.collection == origin_collection
                    &&& pending.items@ == item_ids(collection->0.items@)
                    &&& pending.destination_para == destination_para
                    &&& pending.destination_account == destination_account
                },
            },
            r matches Ok(CollectionTransfer::Send { .. }) ==> {
                &&& origin == Origin::Signed(collection->0.owner)
                &&& forall|i: int|
                    0 <= i < collection->0.items@.len() ==> (
                    #[trigger] collection->0.items@[i]).owner == collection->0.owner
                &&& final(self)@ == old(self)@
            },
            r matches Ok(CollectionTransfer::Proposed(_)) ==> {
                &&& origin == Origin::Signed(collection->0.owner)
                &&& exists|i: int|
                    0 <= i < collection->0.items@.len() && (
                    #[trigger] collection->0.items@[i]).owner != collection->0.owner
                &&& final(self)@.proposals.contains_key(old(self)@.next_proposal_id)
                &&& final(self)@.proposals[old(self)@.next_proposal_id].collection_id
                    == origin_collection
            },
    {
        proof {
            lemma_stays_sound(
                self@,
                Operation::Transfer {
                    origin,
                    origin_collection,
                    collection,
                    destination_para,
                    destination,
                    config,
                    block_number,
                },
            );
            if are_kept_by_collection(self@.proposals) {
                law_transfer_keeps_one_proposal_per_collection(
                    self@,
                    origin,
                    origin_collection,
                    collection,
                    destination_para,
                    destination,
                    config,
                    block_number,
                );
            }
        }
        let who = match ensure_signed(origin) {
            Ok(who) => who,
            Err(failure) => {
                return Err(failure);
            },
        };
        let collection = match collection {
            Some(collection) => collection,
            None => {
                return Err(Failure::Module(Error::CollectionDoesNotExist));
            },
        };
        if collection.owner != who {
            return Err(Failure::Module(Error::NotCollectionOwner));
        }
        let items = collection.items;
        if find_foreign_owner(items, who) {
            return self.propose_transfer(
                who,
                origin_collection,
                destination_para,
                destination_account,
                config,
                items,
                destination,
                block_number,
            );
        }
        let (message, pending) = self.send_collection(
            who,
            origin_collection,
            destination_para,
            destination_account,
            config,
            collection,
        );
        Ok(CollectionTransfer::Send { message, pending })
    }

    /// The message that takes a collection, with the items of its owner, to another chain.
    pub(crate) fn send_collection<'a>(
        &self,
        who: AccountId,
        origin_collection: CollectionId,
        destination_para: ParachainID,
        destination_account: Address<'a>,
        config: CollectionConfigFor,
        collection: CollectionState<'a>,
    ) -> (r: (Message<'a>, PendingCollection<'a>))
        ensures
            r.0.is_addressed_to(destination_para),
            if collection.items@.len() == 0 {
                r.0.call() == RemoteCall::XcNft(
                    Call::ParseCollectionEmpty {
                        origin_collection,
                        receiving_account: destination_account,
                        config,
                        origin_para: self@.config.parachain_id,
                    },
                )
            } else {
                is_same_owner_call(
                    r.0.call(),
                    origin_collection,
                    collection,
                    destination_account,
                    config,
                    self@.config.parachain_id,
                )
            },
            r.1.who == who,
            r.1.collection == origin_collection,
            r.1.items@ == item_ids(collection.items@),
            r.1.destination_para == destination_para,
            r.1.destination_account == destination_account,
    {
        let items = collection.items;
        let call = if items.len() == 0 {
            Call::ParseCollectionEmpty {
                origin_collection,
                receiving_account: destination_account,
                config,
                origin_para: self.config.parachain_id,
            }
        } else {
            Call::ParseCollectionSameOwner {
                owner: destination_account,
                config,
                collection_metadata: metadata_or_empty(collection.metadata),
                nfts: items_with_metadata(items),
                origin_para: self.config.parachain_id,
                origin_collection_id: origin_collection,
            }
        };
        let message = Message::to_sibling(destination_para, RemoteCall::XcNft(call));
        let pending = PendingCollection {
            who,
            collection: origin_collection,
            items: collect_ids(items),
            destination_para,
            destination_account,
        };
        (message, pending)
    }

    /// Whether a transfer would be a proposal.
    ///
    /// It takes what [`Pallet::collection_x_transfer`] takes, as far as this depends on it.
    pub fn makes_proposal(
        &self,
        origin: Origin,
        origin_collection: CollectionId,
        collection: Option<CollectionState>,
        destination: Option<AccountId>,
    ) -> (r: bool)
        ensures
            r == (transfer_failure(self@, origin, origin_collection, collection, destination)
                is None && has_foreign_owner(collection->0.items@, collection->0.owner)),
            r ==> exists|i: int|
                0 <= i < collection->0.items@.len() && (#[trigger] collection->0.items@[i]).owner
                    != collection->0.owner,
    {
        match (ensure_signed(origin), collection) {
            (Ok(who), Some(collection)) => collection.owner == who && find_foreign_owner(
                collection.items,
                who,
            ) && !self.has_proposal_for(origin_collection) && destination.is_some(),
            _ => false,
        }
    }

    /// Proposes to move a collection.
    fn propose_transfer<'a>(
        &mut self,
        who: AccountId,
        origin_collection: CollectionId,
        destination_para: ParachainID,
        destination_account: Address<'a>,
        config: CollectionConfigFor,
        items: &'a [ItemState<'a>],
        destination: Option<AccountId>,
        block_number: BlockNumber,
    ) -> (r: Result<CollectionTransfer<'a>, Failure>)
        requires
            !old(self)@.has_proposal_for(origin_collection) && destination is Some ==> block_number
                + old(self)@.config.proposal_time_in_blocks <= u64::MAX,
        ensures
            if old(self)@.has_proposal_for(origin_collection) {
                &&& final(self)@ == old(self)@
                &&& r matches Err(failure)
                &&& failure == Failure::Module(Error::ProposalAlreadyExists)
            } else if destination is None {
                &&& final(self)@ == old(self)@
                &&& r matches Err(failure)
                &&& failure == Failure::CannotLookup
            } else {
                &&& final(self)@ == old(self)@.with_proposal(
                    new_proposal(
                        old(self)@,
                        origin_collection,
                        who,
                        items@,
                        destination_para,
                        destination->0,
                        config,
                        block_number,
                    ),
                )
                &&& r matches Ok(CollectionTransfer::Proposed(event))
                &&& event == (Event::CollectionTransferProposalCreated {
                    proposal_id: old(self)@.next_proposal_id,
                    collection_id: origin_collection,
                    proposer: who,
                    proposed_collection_owner: destination_account,
                    destination: destination_para,
                })
            },
    {
        if self.has_proposal_for(origin_collection) {
            return Err(Failure::Module(Error::ProposalAlreadyExists));
        }
        let proposed_collection_owner = match destination {
            Some(account) => account,
            None => {
                return Err(Failure::CannotLookup);
            },
        };
        let owners = find_voters(items, who, self.config.max_owners);
        let proposal_id = self.next_proposal_id;
        if proposal_id == u64::MAX {
            self.next_proposal_id = 1;
        } else {
            self.next_proposal_id = proposal_id + 1;
        }
        let proposal = Proposal {
            proposal_id,
            collection_id: origin_collection,
            proposed_collection_owner,
            proposed_destination_para: destination_para,
            proposed_destination_config: config,
            owners,
            number_of_votes: Votes { aye: no_accounts(), nay: no_accounts() },
            end_time: block_number + self.config.proposal_time_in_blocks as u64,
        };
        self.cross_chain_proposals.insert(proposal_id, proposal);
        Ok(
            CollectionTransfer::Proposed(
                Event::CollectionTransferProposalCreated {
                    proposal_id,
                    collection_id: origin_collection,
                    proposer: who,
                    proposed_collection_owner: destination_account,
                    destination: destination_para,
                },
            ),
        )
    }

    /// Goes on with a transfer once the router has answered.
    pub fn collection_x_transfer_sent<'a>(
        &mut self,
        pending: PendingCollection<'a>,
        sent: Result<(), SendError>,
    ) -> (r: CollectionDelivery<'a>)
        ensures
            old(self)@.is_sound() ==> final(self)@.is_sound(),
            match sent {
                Ok(()) => {
                    &&& final(self)@ == old(self)@.without_received_collection(pending.collection)
                    &&& r matches CollectionDelivery::Delivered { burns, pending: still }
                    &&& still == pending
                    &&& burns@ == item_burns(pending.collection, pending.items@)
                },
                Err(e) => {
                    &&& final(self)@ == old(self)@
                    &&& r matches CollectionDelivery::Failed(event)
                    &&& event == (Event::CollectionFailedToXCM {
                        e,
                        collection_id: pending.collection,
                        owner: pending.who,
                        destination: pending.destination_para,
                    })
                },
            },
    {
        proof {
            lemma_stays_sound(
                self@,
                Operation::TransferDelivered { collection: pending.collection },
            );
        }
        match sent {
            Ok(()) => {
                let _ = self.received_collections.remove(pending.collection);
                let burns = burn_items(pending.collection, &pending.items);
                CollectionDelivery::Delivered { burns, pending }
            },
            Err(e) => CollectionDelivery::Failed(
                Event::CollectionFailedToXCM {
                    e,
                    collection_id: pending.collection,
                    owner: pending.who,
                    destination: pending.destination_para,
                },
            ),
        }
    }

    /// Ends a transfer once the items are burned; `deposit` is what then is reserved for the
    /// collection.
    pub fn collection_x_transfer_burned<'a>(
        pending: PendingCollection<'a>,
        deposit: Option<Balance>,
    ) -> (r: (Vec<Effect<'static>>, Event<'a>))
        ensures
            r.0@ == collection_removals(pending.collection, pending.who, deposit),
            r.1 == if pending.items@.len() == 0 {
                Event::CollectionTransferred {
                    origin_collection_id: pending.collection,
                    destination_para_id: pending.destination_para,
                    to_address: pending.destination_account,
                }
            } else {
                Event::CollectionAndNFTsTransferred {
                    origin_collection_id: pending.collection,
                    nft_ids: pending.items,
                    destination_para_id: pending.destination_para,
                    to_address: pending.destination_account,
                }
            },
    {
        let mut effects: Vec<Effect<'static>> = Vec::new();
        push_collection_removals(&mut effects, pending.collection, pending.who, deposit);
        let event = if pending.items.len() == 0 {
            Event::CollectionTransferred {
                origin_collection_id: pending.collection,
                destination_para_id: pending.destination_para,
                to_address: pending.destination_account,
            }
        } else {
            Event::CollectionAndNFTsTransferred {
                origin_collection_id: pending.collection,
                nft_ids: pending.items,
                destination_para_id: pending.destination_para,
                to_address: pending.destination_account,
            }
        };
        (effects, event)
    }
}

/// The burns of items, in order, each as whoever called the pallet.
pub open spec fn item_burns(collection: CollectionId, items: Seq<ItemId>) -> Seq<Effect<'static>> {
    items.map_values(
        |item: ItemId|
            Effect::Dispatch(
                Dispatch { origin: Caller::Caller, call: NftsCall::Burn { collection, item } },
            ),
    )
}

fn burn_items<'a>(collection: CollectionId, items: &Vec<ItemId>) -> (r: Vec<Effect<'a>>)
    ensures
        r@ == item_burns(collection, items@),
{
    let mut burns: Vec<Effect<'a>> = Vec::new();
    let mut i: usize = 0;
    while i < items.len()
        invariant
            i <= items.len(),
            burns@ == item_burns(collection, items@.take(i as int)),
        decreases items.len() - i,
    {
        let item = items[i];
        burns.push(
            Effect::Dispatch(
                Dispatch { origin: Caller::Caller, call: NftsCall::Burn { collection, item } },
            ),
        );
        i += 1;
    }
    burns
}

/// Whether somebody but `owner` owns one of the items.
fn find_foreign_owner(items: &[ItemState], owner: AccountId) -> (r: bool)
    ensures
        r == has_foreign_owner(items@, owner),
        !r <==> forall|i: int| 0 <= i < items@.len() ==> (#[trigger] items@[i]).owner == owner,
{
    let mut i: usize = 0;
    while i < items.len()
        invariant
            i <= items.len(),
            forall|j: int| 0 <= j < i ==> (#[trigger] items@[j]).owner == owner,
        decreases items.len() - i,
    {
        if items[i].owner != owner {
            return true;
        }
        i += 1;
    }
    false
}

/// The identifiers of items.
pub(crate) fn collect_ids(items: &[ItemState]) -> (r: Vec<ItemId>)
    ensures
        r@ == item_ids(items@),
{
    let mut ids: Vec<ItemId> = Vec::new();
    let mut i: usize = 0;
    while i < items.len()
        invariant
            i <= items.len(),
            ids@ =~= item_ids(items@.take(i as int)),
        decreases items.len() - i,
    {
        ids.push(items[i].id);
        i += 1;
    }
    ids
}

/// Items with their metadata, or with no bytes where they have none.
fn items_with_metadata<'a>(items: &[ItemState<'a>]) -> (r: Vec<(ItemId, &'a [u8])>)
    ensures
        r.len() == items@.len(),
        forall|i: int|
            0 <= i < r.len() ==> (#[trigger] r@[i]).0 == items@[i].id && r@[i].1@ == bytes_or_none(
                items@[i].metadata,
            ),
{
    let mut nfts: Vec<(ItemId, &'a [u8])> = Vec::new();
    let mut i: usize = 0;
    while i < items.len()
        invariant
            i <= items.len(),
            nfts.len() == i,
            forall|j: int|
                0 <= j < i ==> (#[trigger] nfts@[j]).0 == items@[j].id && nfts@[j].1@
                    == bytes_or_none(items@[j].metadata),
        decreases items.len() - i,
    {
        let item = items[i];
        nfts.push((item.id, metadata_or_empty(item.metadata)));
        i += 1;
    }
    nfts
}

} // verus!
