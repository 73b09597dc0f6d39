//! Voting on the transfer of a collection whose items belong to several owners, and carrying it out.
use staging_xcm::latest::SendError;
use vstd::prelude::*;

use crate::laws::{lemma_stays_sound, Operation};
use crate::message::{Call, Effect, Message, RemoteCall};
use crate::outside::{as_slice, retain_others, without};
use crate::pallet::{
    bytes_or_none, ensure_signed, metadata_or_empty, proposal_views, Pallet, Storage,
};
use crate::transfer::{
    collect_ids, collection_removals, contains, item_ids, push_collection_removals, push_within,
    PendingCollection,
};
use crate::types::{
    AccountId, Address, Balance, BlockNumber, CollectionId, CollectionState,
    Error, Event, Failure, ItemId, ItemState, Origin, ParachainID, ProposalView, Vote,
};

verus! {

impl ProposalView {
    /// The accounts that have cast this vote.
    pub open spec fn voters_for(self, vote: Vote) -> Seq<AccountId> {
        match vote {
            Vote::Aye => self.aye,
            Vote::Nay => self.nay,
        }
    }

    /// Whether the last vote of `who` that counts is this one; an aye counts before a nay.
    pub open spec fn has_cast(self, who: AccountId, vote: Vote) -> bool {
        match vote {
            Vote::Aye => self.aye.contains(who),
            Vote::Nay => !self.aye.contains(who) && self.nay.contains(who),
        }
    }

    /// The proposal once `who` has cast this vote, in place of an earlier one.
    pub open spec fn with_vote(self, who: AccountId, vote: Vote) -> ProposalView {
        match vote {
            Vote::Aye => ProposalView {
                aye: self.aye.push(who),
                nay: without(self.nay, who),
                ..self
            },
            Vote::Nay => ProposalView {
                aye: without(self.aye, who),
                nay: self.nay.push(who),
                ..self
            },
        }
    }

    /// Whether the votes carry the proposal: some were cast, and at least half of them are ayes.
    pub open spec fn is_passed(self) -> bool {
        let votes = self.aye.len() + self.nay.len();
        votes > 0 && 2 * self.aye.len() >= votes
    }
}

/// Why a vote is refused.
pub open spec fn vote_failure(
    storage: Storage,
    origin: Origin,
    proposal_id: u64,
    vote: Vote,
    block_number: BlockNumber,
) -> Option<Failure> {
    match origin {
        Origin::Signed(who) => {
            let proposal = storage.proposals[proposal_id];
            if !storage.proposals.contains_key(proposal_id) {
                Some(Failure::Module(Error::ProposalDoesNotExist))
            } else if !proposal.owners.contains(who) {
                Some(Failure::Module(Error::NotNFTOwner))
            } else if block_number > proposal.end_time {
                Some(Failure::Module(Error::ProposalExpired))
            } else if proposal.has_cast(who, vote) {
                Some(Failure::Module(Error::AlreadyVotedThis))
            } else if proposal.voters_for(vote).len() >= storage.config.max_owners {
                Some(Failure::Module(Error::MaxOwnersReached))
            } else {
                None
            }
        },
        _ => Some(Failure::BadOrigin),
    }
}

/// Why a proposal may not be carried out.
pub open spec fn initiate_failure(
    storage: Storage,
    origin: Origin,
    proposal_id: u64,
    collection: Option<CollectionState>,
    block_number: BlockNumber,
) -> Option<Failure> {
    match origin {
        Origin::Signed(who) => {
            let proposal = storage.proposals[proposal_id];
            if !storage.proposals.contains_key(proposal_id) {
                Some(Failure::Module(Error::ProposalDoesNotExist))
            } else if collection is None {
                Some(Failure::Module(Error::CollectionDoesNotExist))
            } else if collection->0.owner != who {
                Some(Failure::Module(Error::NotCollectionOwner))
            } else if block_number < proposal.end_time {
                Some(Failure::Module(Error::ProposalStillActive))
            } else if !proposal.is_passed() {
                Some(Failure::Module(Error::ProposalDidNotPass))
            } else {
                None
            }
        },
        _ => Some(Failure::BadOrigin),
    }
}

impl Storage {
    /// The storage without a proposal.
    pub open spec fn without_proposal(self, proposal_id: u64) -> Storage {
        Storage { proposals: self.proposals.remove(proposal_id), ..self }
    }

    /// The storage after a vote that was not refused.
    pub open spec fn with_vote(self, proposal_id: u64, who: AccountId, vote: Vote) -> Storage {
        Storage {
            proposals: self.proposals.insert(
                proposal_id,
                self.proposals[proposal_id].with_vote(who, vote),
            ),
            ..self
        }
    }
}

/// A proposal that is being carried out.
#[derive(PartialEq, Debug)]
pub struct PendingInitiation<'a> {
    pub who: AccountId,
    pub proposal_id: u64,
    pub collection: CollectionId,
    pub items: &'a [ItemState<'a>],
    pub destination_para: ParachainID,
    pub recipient: AccountId,
}

/// What carrying out a proposal takes.
#[allow(inconsistent_fields)]
#[derive(PartialEq, Debug)]
pub enum Initiation<'a> {
    /// The collection has no items any more, and is sent as any such collection is: the message is to
    /// be sent, and the outcome handed to [`Pallet::collection_x_transfer_sent`].
    Regular { message: Message<'a>, pending: PendingCollection<'a> },
    /// The collection goes with its items: the message is to be sent, and the outcome handed to
    /// [`Pallet::collection_x_transfer_initiate_sent`].
    Send { message: Message<'a>, pending: PendingInitiation<'a> },
}

/// The call that has the destination take a collection with the items of several owners, each with
/// its owner and its metadata.
pub open spec fn is_multiple_owners_call(
    call: RemoteCall,
    proposal: ProposalView,
    collection: CollectionState,
    chain: ParachainID,
) -> bool {
    match call {
        RemoteCall::XcNft(
            Call::ParseCollectionMultipleOwners {
                owner,
                config,
                collection_metadata,
                nfts,
                origin_para,
                origin_collection_id,
            },
        ) => {
            &&& owner == Address::Account(proposal.proposed_collection_owner)
            &&& config == proposal.proposed_destination_config
            &&& collection_metadata@ == bytes_or_none(collection.metadata)
            &&& origin_para == chain
            &&& origin_collection_id == proposal.collection_id
            &&& nfts@.len() == collection.items@.len()
            &&& forall|i: int|
                0 <= i < nfts@.len() ==> (#[trigger] nfts@[i]).0 == collection.items@[i].id
                    && nfts@[i].1 == Address::Account(collection.items@[i].owner) && nfts@[i].2@
                    == bytes_or_none(collection.items@[i].metadata)
        },
        _ => false,
    }
}

/// Items with their owners and their metadata, or with no bytes where they have none.
fn items_with_owners<'a>(items: &[ItemState<'a>]) -> (r: Vec<(ItemId, Address<'a>, &'a [u8])>)
    ensures
        r@.len() == items@.len(),
        forall|i: int|
            0 <= i < r@.len() ==> (#[trigger] r@[i]).0 == items@[i].id && r@[i].1
                == Address::Account(items@[i].owner) && r@[i].2@ == bytes_or_none(
                items@[i].metadata,
            ),
{
    let mut nfts: Vec<(ItemId, Address<'a>, &'a [u8])> = Vec::new();
    let mut i: usize = 0;
    while i < items.len()
        invariant
            i <= items.len(),
            nfts@.len() == i,
            forall|j: int|
                0 <= j < i ==> (#[trigger] nfts@[j]).0 == items@[j].id && nfts@[j].1
                    == Address::Account(items@[j].owner) && nfts@[j].2@ == bytes_or_none(
                    items@[j].metadata,
                ),
        decreases items.len() - i,
    {
        let item = items[i];
        nfts.push((item.id, Address::Account(item.owner), metadata_or_empty(item.metadata)));
        i += 1;
    }
    nfts
}

/// What the chain forgets about an item, in order, once its collection has been sent away.
pub open spec fn item_removals(collection: CollectionId, item: ItemState) -> Seq<Effect<'static>> {
    let id = item.id;
    let removals = seq![
        Effect::RemoveAccount { owner: item.owner, collection, item: id },
        Effect::RemoveItem { collection, item: id },
        Effect::RemovePendingSwap { collection, item: id },
        Effect::RemoveItemMetadata { collection, item: id },
        Effect::RemoveItemAttributesApprovals { collection, item: id },
        Effect::RemoveItemPrice { collection, item: id },
        Effect::RemoveItemConfig { collection, item: id },
    ];
    match (item.depositor, item.deposit) {
        (Some(who), Some(amount)) => seq![Effect::Unreserve { who, amount }] + removals,
        _ => removals,
    }
}

/// What the chain forgets about items, item by item.
pub open spec fn items_removals(collection: CollectionId, items: Seq<ItemState>) -> Seq<
    Effect<'static>,
>
    decreases items.len(),
{
    if items.len() == 0 {
        Seq::empty()
    } else {
        items_removals(collection, items.drop_last()) + item_removals(collection, items.last())
    }
}

fn push_item_removals(
    effects: &mut Vec<Effect<'static>>,
    collection: CollectionId,
    item: ItemState,
)
    ensures
        final(effects)@ == old(effects)@ + item_removals(collection, item),
{
    let id = item.id;
    if let Some(who) = item.depositor {
        if let Some(amount) = item.deposit {
            effects.push(Effect::Unreserve { who, amount });
        }
    }
    effects.push(Effect::RemoveAccount { owner: item.owner, collection, item: id });
    effects.push(Effect::RemoveItem { collection, item: id });
    effects.push(Effect::RemovePendingSwap { collection, item: id });
    effects.push(Effect::RemoveItemMetadata { collection, item: id });
    effects.push(Effect::RemoveItemAttributesApprovals { collection, item: id });
    effects.push(Effect::RemoveItemPrice { collection, item: id });
    effects.push(Effect::RemoveItemConfig { collection, item: id });
}

fn push_items_removals(
    effects: &mut Vec<Effect<'static>>,
    collection: CollectionId,
    items: &[ItemState],
)
    ensures
        final(effects)@ == old(effects)@ + items_removals(collection, items@),
{
    let mut i: usize = 0;
    while i < items.len()
        invariant
            i <= items.len(),
            effects@ == old(effects)@ + items_removals(collection, items@.take(i as int)),
        decreases items.len() - i,
    {
        push_item_removals(effects, collection, items[i]);
        proof {
            let done = items@.take(i + 1);
            assert(done.drop_last() =~= items@.take(i as int));
        }
        i += 1;
    }
    assert(items@.take(items@.len() as int) =~= items@);
}

impl Pallet {
    /// Casts a vote on a proposal, or changes it.
    pub fn collection_x_transfer_vote(
        &mut self,
        origin: Origin,
        proposal_id: u64,
        actual_vote: Vote,
        block_number: BlockNumber,
    ) -> (r: Result<Event<'static>, Failure>)
        ensures
            old(self)@.is_sound() ==> final(self)@.is_sound(),
            match vote_failure(old(self)@, origin, proposal_id, actual_vote, block_number) {
                Some(failure) => {
                    &&& final(self)@ == old(self)@
                    &&& r matches Err(f)
                    &&& f == failure
                },
                None => {
                    &&& final(self)@ == old(self)@.with_vote(proposal_id, origin->0, actual_vote)
                    &&& r matches Ok(event)
                    &&& event == (Event::CrossChainPropoposalVoteRegistered {
                        proposal_id,
                        voter: origin->0,
                        vote: actual_vote,
                    })
                },
            },
            r is Ok ==> {
                let before = old(self)@.proposals[proposal_id];
                let after = final(self)@.proposals[proposal_id];
                &&& origin is Signed
                &&& old(self)@.proposals.contains_key(proposal_id)
                &&& before.owners.contains(origin->0)
                &&& block_number <= before.end_time
                &&& actual_vote is Aye ==> !before.aye.contains(origin->0) && after.aye
                    == before.aye.push(origin->0)
                &&& actual_vote is Nay ==> after.nay == before.nay.push(origin->0)
            },
    {
        proof {
            lemma_stays_sound(
                self@,
                Operation::Vote { origin, proposal_id, vote: actual_vote, block_number },
            );
        }
        let who = match ensure_signed(origin) {
            Ok(who) => who,
            Err(failure) => {
                return Err(failure);
            },
        };
        let mut proposal = match self.cross_chain_proposals.remove(proposal_id) {
            Some(proposal) => proposal,
            None => {
                assert(proposal_views(self.cross_chain_proposals@) =~= old(self)@.proposals);
                return Err(Failure::Module(Error::ProposalDoesNotExist));
            },
        };
        let max_owners = self.config.max_owners;
        let result = if !contains(as_slice(&proposal.owners), who) {
            Err(Failure::Module(Error::NotNFTOwner))
        } else if block_number > proposal.end_time {
            Err(Failure::Module(Error::ProposalExpired))
        } else {
            let is_aye = contains(as_slice(&proposal.number_of_votes.aye), who);
            let is_nay = !is_aye && contains(as_slice(&proposal.number_of_votes.nay), who);
            match actual_vote {
                Vote::Aye => if is_aye {
                    Err(Failure::Module(Error::AlreadyVotedThis))
                } else {
                    if push_within(&mut proposal.number_of_votes.aye, who, max_owners) {
                        retain_others(&mut proposal.number_of_votes.nay, who);
                        Ok(())
                    } else {
                        Err(Failure::Module(Error::MaxOwnersReached))
                    }
                },
                Vote::Nay => if is_nay {
                    Err(Failure::Module(Error::AlreadyVotedThis))
                } else {
                    if push_within(&mut proposal.number_of_votes.nay, who, max_owners) {
                        retain_others(&mut proposal.number_of_votes.aye, who);
                        Ok(())
                    } else {
                        Err(Failure::Module(Error::MaxOwnersReached))
                    }
                },
            }
        };
        let ghost after = proposal@;
        self.cross_chain_proposals.insert(proposal_id, proposal);
        proof {
            assert(proposal_views(self.cross_chain_proposals@) =~= old(self)@.proposals.insert(
                proposal_id,
                after,
            ));
            if result is Err {
                assert(old(self)@.proposals.insert(proposal_id, after) =~= old(self)@.proposals);
            }
        }
        match result {
            Ok(()) => Ok(
                Event::CrossChainPropoposalVoteRegistered {
                    proposal_id,
                    voter: who,
                    vote: actual_vote,
                },
            ),
            Err(failure) => Err(failure),
        }
    }

    /// Carries a proposal out once the time to vote on it is over.
    ///
    /// `collection` is what the chain stores under the collection that the proposal is about.
    pub fn collection_x_transfer_initiate<'a>(
        &mut self,
        origin: Origin,
        proposal_id: u64,
        collection: Option<CollectionState<'a>>,
        block_number: BlockNumber,
    ) -> (r: Result<Initiation<'a>, Failure>)
        ensures
            old(self)@.is_sound() ==> final(self)@.is_sound(),
            match initiate_failure(old(self)@, origin, proposal_id, collection, block_number) {
                Some(failure) => {
                    &&& final(self)@ == old(self)@
                    &&& r matches Err(f)
                    &&& f == failure
                },
                None => {
                    let proposal = old(self)@.proposals[proposal_id];
                    let state = collection->0;
                    let chain = old(self)@.config.parachain_id;
                    if state.items@.len() == 0 {
                        &&& final(self)@ == old(self)@.without_proposal(proposal_id)
                        &&& r matches Ok(Initiation::Regular { message, pending })
                        &&& message.is_addressed_to(proposal.proposed_destination_para)
                        &&& message.call() == RemoteCall::XcNft(
                            Call::ParseCollectionEmpty {
                                origin_collection: proposal.collection_id,
                                receiving_account: Address::Account(
                                    proposal.proposed_collection_owner,
                                ),
                                config: proposal.proposed_destination_config,
                                origin_para: chain,
                            },
                        )
                        &&& pending.who == state.owner
                        &&& pending.collection == proposal.collection_id
                        &&& pending.items@.len() == 0
                        &&& pending.destination_para == proposal.proposed_destination_para
                        &&& pending.destination_account == Address::Account(
                            proposal.proposed_collection_owner,
                        )
                    } else {
                        &&& final(self)@ == old(self)@
                        &&& r matches Ok(Initiation::Send { message, pending })
                        &&& message.is_addressed_to(proposal.proposed_destination_para)
                        &&& is_multiple_owners_call(message.call(), proposal, state, chain)
                        &&& pending == (PendingInitiation {
                            who: state.owner,
                            proposal_id,
                            collection: proposal.collection_id,
                            items: state.items,
                            destination_para: proposal.proposed_destination_para,
                            recipient: proposal.proposed_collection_owner,
                        })
                    }
                },
            },
            r is Ok <==> {
                let proposal = old(self)@.proposals[proposal_id];
                &&& origin is Signed
                &&& old(self)@.proposals.contains_key(proposal_id)
                &&& collection is Some
                &&& collection->0.owner == origin->0
                &&& block_number >= proposal.end_time
                &&& proposal.aye.len() + proposal.nay.len() >= 1
                &&& proposal.nay.len() <= proposal.aye.len()
            },
    {
        proof {
            lemma_stays_sound(
                self@,
                Operation::Initiate { origin, proposal_id, collection, block_number },
            );
        }
        let who = match ensure_signed(origin) {
            Ok(who) => who,
            Err(failure) => {
                return Err(failure);
            },
        };
        let (collection_id, recipient, destination_para, config, is_over, is_passed) =
            match self.cross_chain_proposals.get(proposal_id) {
            Some(proposal) => {
                let aye = as_slice(&proposal.number_of_votes.aye).len() as u128;
                let nay = as_slice(&proposal.number_of_votes.nay).len() as u128;
                (
                    proposal.collection_id,
                    proposal.proposed_collection_owner,
                    proposal.proposed_destination_para,
                    proposal.proposed_destination_config,
                    block_number >= proposal.end_time,
                    is_majority(aye, nay),
                )
            },
            None => {
                return Err(Failure::Module(Error::ProposalDoesNotExist));
            },
        };
        let state = match collection {
            Some(state) => state,
            None => {
                return Err(Failure::Module(Error::CollectionDoesNotExist));
            },
        };
        if state.owner != who {
            return Err(Failure::Module(Error::NotCollectionOwner));
        }
        if !is_over {
            return Err(Failure::Module(Error::ProposalStillActive));
        }
        if !is_passed {
            return Err(Failure::Module(Error::ProposalDidNotPass));
        }
        let items = state.items;
        if items.len() == 0 {
            let _ = self.cross_chain_proposals.remove(proposal_id);
            proof {
                assert(proposal_views(self.cross_chain_proposals@) =~= old(self)@.proposals.remove(
                    proposal_id,
                ));
            }
            let (message, pending) = self.send_collection(
                who,
                collection_id,
                destination_para,
                Address::Account(recipient),
                config,
                state,
            );
            return Ok(Initiation::Regular { message, pending });
        }
        let call = Call::ParseCollectionMultipleOwners {
            owner: Address::Account(recipient),
            config,
            collection_metadata: metadata_or_empty(state.metadata),
            nfts: items_with_owners(items),
            origin_para: self.config.parachain_id,
            origin_collection_id: collection_id,
        };
        Ok(
            Initiation::Send {
                message: Message::to_sibling(destination_para, RemoteCall::XcNft(call)),
                pending: PendingInitiation {
                    who,
                    proposal_id,
                    collection: collection_id,
                    items,
                    destination_para,
                    recipient,
                },
            },
        )
    }

    /// Ends the carrying out of a proposal once the router has answered; `deposit` is what then is
    /// reserved for the collection.
    pub fn collection_x_transfer_initiate_sent(
        &mut self,
        pending: PendingInitiation,
        sent: Result<(), SendError>,
        deposit: Option<Balance>,
    ) -> (r: (Vec<Effect<'static>>, Event<'static>))
        ensures
            old(self)@.is_sound() ==> final(self)@.is_sound(),
            match sent {
                Ok(()) => {
                    &&& final(self)@ == old(self)@.without_received_collection(
                        pending.collection,
                    ).without_proposal(pending.proposal_id)
                    &&& r.0@ == items_removals(pending.collection, pending.items@)
                        + collection_removals(pending.collection, pending.who, deposit)
                    &&& r.1 matches Event::CollectionAndNFTsTransferred {
                        origin_collection_id,
                        nft_ids,
                        destination_para_id,
                        to_address,
                    }
                    &&& origin_collection_id == pending.collection
                    &&& nft_ids@ == item_ids(pending.items@)
                    &&& destination_para_id == pending.destination_para
                    &&& to_address == Address::Account(pending.recipient)
                },
                Err(e) => {
                    &&& final(self)@ == old(self)@
                    &&& r.0@.len() == 0
                    &&& r.1 == (Event::CollectionFailedToXCM {
                        e,
                        collection_id: pending.collection,
                        owner: pending.who,
                        destination: pending.destination_para,
                    })
                },
            },
    {
        proof {
            lemma_stays_sound(
                self@,
                Operation::InitiationDelivered {
                    collection: pending.collection,
                    proposal_id: pending.proposal_id,
                },
            );
        }
        let mut effects: Vec<Effect<'static>> = Vec::new();
        match sent {
            Ok(()) => {
                let _ = self.received_collections.remove(pending.collection);
                push_items_removals(&mut effects, pending.collection, pending.items);
                push_collection_removals(&mut effects, pending.collection, pending.who, deposit);
                let _ = self.cross_chain_proposals.remove(pending.proposal_id);
                proof {
                    assert(proposal_views(self.cross_chain_proposals@)
                        =~= old(self)@.proposals.remove(pending.proposal_id));
                }
                (
                    effects,
                    Event::CollectionAndNFTsTransferred {
                        origin_collection_id: pending.collection,
                        nft_ids: collect_ids(pending.items),
                        destination_para_id: pending.destination_para,
                        to_address: Address::Account(pending.recipient),
                    },
                )
            },
            Err(e) => (
                effects,
                Event::CollectionFailedToXCM {
                    e,
                    collection_id: pending.collection,
                    owner: pending.who,
                    destination: pending.destination_para,
                },
            ),
        }
    }
}

/// Whether this many ayes against this many nays carry a proposal.
fn is_majority(aye: u128, nay: u128) -> (r: bool)
    requires
        aye <= u64::MAX,
        nay <= u64::MAX,
    ensures
        r == (aye + nay > 0 && 2 * aye >= aye + nay),
{
    let votes = aye + nay;
    votes > 0 && 2 * aye >= votes
}

} // verus!
