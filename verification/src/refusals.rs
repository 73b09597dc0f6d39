//! Which calls are refused, why, and which are not.
use vstd::prelude::*;

use crate::arrival::{are_owners_known, arrival_failure};
use crate::nft::{claim_failure, nft_transfer_failure};
use crate::pallet::Storage;
use crate::proposal::{initiate_failure, vote_failure};
use crate::transfer::transfer_failure;
use crate::types::{
    AccountId, AssetKey, BlockNumber, CollectionId, CollectionState, Error, Failure, ItemState,
    Origin, Vote,
};

verus! {

/// A collection goes, or its transfer is proposed, for its owner alone. It goes at once only where
/// every one of its items is the owner's too; where any item is somebody else's, there must be no
/// proposal for the collection yet, and the receiver must be an account that the chain knows.
pub proof fn law_who_may_transfer_a_collection(
    storage: Storage,
    origin: Origin,
    origin_collection: CollectionId,
    collection: Option<CollectionState>,
    destination: Option<AccountId>,
)
    ensures
        ({
            let failure = transfer_failure(
                storage,
                origin,
                origin_collection,
                collection,
                destination,
            );
            let is_owner = origin is Signed && collection is Some && collection->0.owner
                == origin->0;
            let all_are_theirs = forall|i: int|
                0 <= i < collection->0.items@.len() ==> (#[trigger] collection->0.items@[i]).owner
                    == origin->0;
            let is_proposed = exists|id: u64| #[trigger]
                storage.proposals.contains_key(id) && storage.proposals[id].collection_id
                    == origin_collection;
            &&& failure is None <==> is_owner && (all_are_theirs || (!is_proposed
                && destination is Some))
            &&& failure == Some(Failure::BadOrigin) <==> !(origin is Signed)
            &&& failure == Some(Failure::Module(Error::CollectionDoesNotExist))
                <==> origin is Signed && collection is None
            &&& failure == Some(Failure::Module(Error::NotCollectionOwner)) <==> origin is Signed
                && collection is Some && collection->0.owner != origin->0
            &&& failure == Some(Failure::Module(Error::ProposalAlreadyExists)) <==> is_owner
                && !all_are_theirs && is_proposed
            &&& failure == Some(Failure::CannotLookup) <==> is_owner && !all_are_theirs
                && !is_proposed && destination is None
        }),
{
    let items = collection->0.items@;
    if exists|i: int| 0 <= i < items.len() && (#[trigger] items[i]).owner != origin->0 {
        let i = choose|i: int| 0 <= i < items.len() && (#[trigger] items[i]).owner != origin->0;
        assert(collection->0.items@[i].owner != origin->0);
    }
    if exists|id: u64| #[trigger]
        storage.proposals.contains_key(id) && storage.proposals[id].collection_id
            == origin_collection {
        let id = choose|id: u64| #[trigger]
            storage.proposals.contains_key(id) && storage.proposals[id].collection_id
                == origin_collection;
        assert(storage.proposals[id].collection_id == origin_collection);
    }
}

/// A vote counts for whoever is listed as an owner, up to the last block and as long as it changes
/// something and the list has room.
pub proof fn law_who_may_vote(
    storage: Storage,
    origin: Origin,
    proposal_id: u64,
    vote: Vote,
    block_number: BlockNumber,
)
    ensures
        ({
            let failure = vote_failure(storage, origin, proposal_id, vote, block_number);
            let who = origin->0;
            let is_known = storage.proposals.contains_key(proposal_id);
            let p = storage.proposals[proposal_id];
            let may = origin is Signed && is_known && p.owners.contains(who);
            let is_open = may && block_number <= p.end_time;
            let is_same = match vote {
                Vote::Aye => p.aye.contains(who),
                Vote::Nay => p.nay.contains(who) && !p.aye.contains(who),
            };
            let cast = match vote {
                Vote::Aye => p.aye.len(),
                Vote::Nay => p.nay.len(),
            };
            let max = storage.config.max_owners as int;
            &&& failure is None <==> is_open && !is_same && cast < max
            &&& failure == Some(Failure::BadOrigin) <==> !(origin is Signed)
            &&& failure == Some(Failure::Module(Error::ProposalDoesNotExist))
                <==> origin is Signed && !is_known
            &&& failure == Some(Failure::Module(Error::NotNFTOwner)) <==> origin is Signed
                && is_known && !p.owners.contains(who)
            &&& failure == Some(Failure::Module(Error::ProposalExpired)) <==> may && block_number
                > p.end_time
            &&& failure == Some(Failure::Module(Error::AlreadyVotedThis)) <==> is_open && is_same
            &&& failure == Some(Failure::Module(Error::MaxOwnersReached)) <==> is_open && !is_same
                && cast >= max
        }),
{
}

/// A proposal is carried out for the owner of the collection, from the last block of the vote on, and
/// only where somebody voted and there are no more nays than ayes.
pub proof fn law_when_a_proposal_is_carried_out(
    storage: Storage,
    origin: Origin,
    proposal_id: u64,
    collection: Option<CollectionState>,
    block_number: BlockNumber,
)
    ensures
        ({
            let failure = initiate_failure(
                storage,
                origin,
                proposal_id,
                collection,
                block_number,
            );
            let is_known = origin is Signed && storage.proposals.contains_key(proposal_id);
            let p = storage.proposals[proposal_id];
            let is_owner = is_known && collection is Some && collection->0.owner == origin->0;
            let is_over = is_owner && block_number >= p.end_time;
            let is_carried = p.aye.len() >= 1 && p.nay.len() <= p.aye.len();
            &&& failure is None <==> is_over && is_carried
            &&& failure == Some(Failure::BadOrigin) <==> !(origin is Signed)
            &&& failure == Some(Failure::Module(Error::ProposalDoesNotExist))
                <==> origin is Signed && !storage.proposals.contains_key(proposal_id)
            &&& failure == Some(Failure::Module(Error::CollectionDoesNotExist)) <==> is_known
                && collection is None
            &&& failure == Some(Failure::Module(Error::NotCollectionOwner)) <==> is_known
                && collection is Some && collection->0.owner != origin->0
            &&& failure == Some(Failure::Module(Error::ProposalStillActive)) <==> is_owner
                && block_number < p.end_time
            &&& failure == Some(Failure::Module(Error::ProposalDidNotPass)) <==> is_over
                && !is_carried
        }),
{
}

/// An item that exists goes for its owner and for nobody else, whatever is stored about it besides.
pub proof fn law_who_may_send_an_item(
    origin: Origin,
    collection_exists: bool,
    item: Option<ItemState>,
)
    ensures
        ({
            let failure = nft_transfer_failure(origin, collection_exists, item);
            let is_known = origin is Signed && collection_exists && item is Some;
            &&& failure is None <==> is_known && item->0.owner == origin->0
            &&& failure == Some(Failure::BadOrigin) <==> !(origin is Signed)
            &&& failure == Some(Failure::Module(Error::CollectionDoesNotExist))
                <==> origin is Signed && !collection_exists
            &&& failure == Some(Failure::Module(Error::NFTDoesNotExist)) <==> origin is Signed
                && collection_exists && item is None
            &&& failure == Some(Failure::Module(Error::NotNFTOwner)) <==> is_known && item->0.owner
                != origin->0
        }),
{
}

/// Whether an item may be sent does not depend on its identifier, its metadata or its deposit: two
/// items of one owner are both refused, for one reason, or neither is.
pub proof fn law_only_the_owner_of_an_item_matters(
    origin: Origin,
    collection_exists: bool,
    one: ItemState,
    other: ItemState,
)
    requires
        one.owner == other.owner,
    ensures
        nft_transfer_failure(origin, collection_exists, Some(one)) == nft_transfer_failure(
            origin,
            collection_exists,
            Some(other),
        ),
{
}

/// An item is claimed by who owns both it and the item of the collection that followed, where that
/// collection was received as the one that is named and the item is known as received. Nothing else
/// that is stored about the item plays a part.
pub proof fn law_who_may_claim_an_item(
    storage: Storage,
    origin: Origin,
    origin_collection_at_destination: CollectionId,
    origin_collection_at_origin: CollectionId,
    current: AssetKey,
    current_collection_exists: bool,
    origin_collection_exists: bool,
    origin_item_owner: Option<AccountId>,
    current_item: Option<ItemState>,
)
    requires
        origin is Signed && current_collection_exists && origin_collection_exists
            ==> storage.received_collections.contains_key(origin_collection_at_destination),
    ensures
        ({
            let failure = claim_failure(
                storage,
                origin,
                origin_collection_at_destination,
                origin_collection_at_origin,
                current,
                current_collection_exists,
                origin_collection_exists,
                origin_item_owner,
                current_item,
            );
            let who = origin->0;
            let exist = origin is Signed && current_collection_exists && origin_collection_exists;
            let named =
                storage.received_collections[origin_collection_at_destination].origin_collection_id;
            let is_right = exist && named == origin_collection_at_origin;
            let is_received = is_right && storage.received_assets.contains_key(current);
            let owns_first = is_received && origin_item_owner == Some(who);
            &&& failure is None <==> owns_first && current_item is Some && current_item->0.owner
                == who
            &&& failure == Some(Failure::BadOrigin) <==> !(origin is Signed)
            &&& failure == Some(Failure::Module(Error::CollectionDoesNotExist))
                <==> origin is Signed && !(current_collection_exists && origin_collection_exists)
            &&& failure == Some(Failure::Module(Error::WrongOriginCollectionAtOrigin)) <==> exist
                && named != origin_collection_at_origin
            &&& failure == Some(Failure::Module(Error::NFTNotReceived)) <==> is_right
                && !storage.received_assets.contains_key(current)
            &&& failure == Some(Failure::Module(Error::NFTDoesNotExist)) <==> (is_received
                && origin_item_owner is None) || (owns_first && current_item is None)
            &&& failure == Some(Failure::Module(Error::NotNFTOwner)) <==> (is_received
                && origin_item_owner is Some && origin_item_owner->0 != who) || (owns_first
                && current_item is Some && current_item->0.owner != who)
        }),
{
}

/// Whether an item may be claimed does not depend on its identifier, its metadata or its deposit.
pub proof fn law_only_the_owner_of_a_claimed_item_matters(
    storage: Storage,
    origin: Origin,
    origin_collection_at_destination: CollectionId,
    origin_collection_at_origin: CollectionId,
    current: AssetKey,
    current_collection_exists: bool,
    origin_collection_exists: bool,
    origin_item_owner: Option<AccountId>,
    one: ItemState,
    other: ItemState,
)
    requires
        one.owner == other.owner,
    ensures
        claim_failure(
            storage,
            origin,
            origin_collection_at_destination,
            origin_collection_at_origin,
            current,
            current_collection_exists,
            origin_collection_exists,
            origin_item_owner,
            Some(one),
        ) == claim_failure(
            storage,
            origin,
            origin_collection_at_destination,
            origin_collection_at_origin,
            current,
            current_collection_exists,
            origin_collection_exists,
            origin_item_owner,
            Some(other),
        ),
{
}

/// An item is taken into a collection that the account to which the sender's address resolves owns,
/// where it neither exists nor is known as received.
pub proof fn law_which_items_are_taken(
    storage: Storage,
    asset: AssetKey,
    collection_owner: Option<AccountId>,
    item_exists: bool,
    account: Option<AccountId>,
)
    ensures
        ({
            let failure = arrival_failure(storage, asset, collection_owner, item_exists, account);
            let is_free = collection_owner is Some && !item_exists
                && !storage.received_assets.contains_key(asset);
            &&& failure is None <==> is_free && account is Some && collection_owner->0
                == account->0
            &&& failure == Some(Failure::Module(Error::CollectionDoesNotExist))
                <==> collection_owner is None
            &&& failure == Some(Failure::Module(Error::NFTExists)) <==> collection_owner is Some
                && item_exists
            &&& failure == Some(Failure::Module(Error::NFTAlreadyReceived))
                <==> collection_owner is Some && !item_exists
                && storage.received_assets.contains_key(asset)
            &&& failure == Some(Failure::CannotLookup) <==> is_free && account is None
            &&& failure == Some(Failure::Module(Error::NotCollectionOwner)) <==> is_free
                && account is Some && collection_owner->0 != account->0
        }),
{
}

/// To find the collection that was made for an account, it is enough to know the owners of the
/// collections from the first one that could be it up to the one that will be made next, or up to the
/// account's own.
pub proof fn law_which_owners_have_to_be_known(
    owners: Seq<AccountId>,
    first: CollectionId,
    next: Option<CollectionId>,
    who: AccountId,
)
    requires
        owners.len() > 0,
        first + owners.len() <= 0x1_0000_0000,
        owners[0] == who || owners.contains(who) || next is None || (first <= next->0
            && next->0 <= first + owners.len()),
    ensures
        are_owners_known(owners, first, next, who),
{
}

} // verus!
