//! What calls that are not refused change and ask for, record by record and field by field.
use vstd::prelude::*;

use crate::message::{Caller, Dispatch, Effect, Message, NftsCall, RemoteCall};
use crate::nft::{is_claim, is_nft_transfer_call, sent_item_effects};
use crate::outside::{accounts, without};
use crate::pallet::{Pallet, Storage};
use crate::proposal::{is_multiple_owners_call, item_removals, items_removals};
use crate::transfer::{
    after_transfer, collection_removals, is_same_owner_call, item_burns, item_ids, voters,
};
use crate::types::{
    AccountId, Address, AssetKey, Balance, BlockNumber, CollectionConfigFor, CollectionId,
    CollectionState, Config, ItemId, ItemState, Origin, ParachainID, Proposal, ProposalView,
    ReceivedCols, ReceivedStruct, SentStruct, Vote,
};

verus! {

/// The pallet's state is what its tables hold, each proposal with its lists in order.
pub proof fn law_nothing_is_remembered_besides(pallet: Pallet, proposal_id: u64)
    ensures
        pallet@.config == pallet.config,
        pallet@.sent_assets == pallet.sent_assets@,
        pallet@.received_assets == pallet.received_assets@,
        pallet@.received_collections == pallet.received_collections@,
        pallet@.next_proposal_id == pallet.next_proposal_id,
        pallet@.proposals.contains_key(proposal_id)
            <==> pallet.cross_chain_proposals@.contains_key(proposal_id),
        pallet@.proposals.contains_key(proposal_id) ==> pallet@.proposals[proposal_id]
            == pallet.cross_chain_proposals@[proposal_id]@,
{
}

/// A proposal is what its fields say, its lists in order.
pub proof fn law_nothing_is_proposed_besides(proposal: Proposal)
    ensures
        proposal@.proposal_id == proposal.proposal_id,
        proposal@.collection_id == proposal.collection_id,
        proposal@.proposed_collection_owner == proposal.proposed_collection_owner,
        proposal@.proposed_destination_para == proposal.proposed_destination_para,
        proposal@.proposed_destination_config == proposal.proposed_destination_config,
        proposal@.owners == accounts(proposal.owners),
        proposal@.aye == accounts(proposal.number_of_votes.aye),
        proposal@.nay == accounts(proposal.number_of_votes.nay),
        proposal@.end_time == proposal.end_time,
{
}

/// At first nothing is remembered but the configuration.
pub proof fn law_nothing_is_remembered_at_first(config: Config)
    ensures
        Storage::initial(config).config == config,
        Storage::initial(config).sent_assets == Map::<
            AssetKey,
            SentStruct,
        >::empty(),
        Storage::initial(config).received_assets == Map::<
            AssetKey,
            ReceivedStruct,
        >::empty(),
        Storage::initial(config).received_collections == Map::<
            CollectionId,
            ReceivedCols,
        >::empty(),
        Storage::initial(config).proposals == Map::<u64, ProposalView>::empty(),
        Storage::initial(config).next_proposal_id == 0,
{
}

/// What is sound to remember: an asset is known as received under its place here and not also as sent,
/// a collection under its identifier here, and a proposal under its identifier, alone for its
/// collection. Each proposal lists everybody once and no more than may be listed, and only who is
/// listed has voted, once and for one side.
pub proof fn law_what_is_sound_to_remember(
    storage: Storage,
    asset: AssetKey,
    collection: CollectionId,
    id: u64,
    other: u64,
    voter: AccountId,
)
    requires
        storage.is_sound(),
    ensures
        storage.received_assets.contains_key(asset) ==> {
            &&& !storage.sent_assets.contains_key(asset)
            &&& storage.received_assets[asset].received_collection_id == asset.collection
            &&& storage.received_assets[asset].received_asset_id == asset.item
        },
        storage.received_collections.contains_key(collection)
            ==> storage.received_collections[collection].received_collection_id == collection,
        storage.proposals.contains_key(id) ==> {
            let p = storage.proposals[id];
            &&& p.proposal_id == id
            &&& p.owners.no_duplicates()
            &&& p.aye.no_duplicates()
            &&& p.nay.no_duplicates()
            &&& p.owners.len() <= storage.config.max_owners
            &&& p.aye.contains(voter) || p.nay.contains(voter) ==> p.owners.contains(voter)
            &&& !(p.aye.contains(voter) && p.nay.contains(voter))
        },
        storage.proposals.contains_key(id) && storage.proposals.contains_key(other)
            && storage.proposals[id].collection_id == storage.proposals[other].collection_id ==> id
            == other,
{
}

/// Where the owner of a collection sends it, all of its items are theirs and none of another: nothing
/// is remembered of it before the router has answered.
pub proof fn law_sending_what_is_ones_own_proposes_nothing(
    storage: Storage,
    origin: Origin,
    origin_collection: CollectionId,
    collection: CollectionState,
    destination_para: ParachainID,
    destination: Option<AccountId>,
    config: CollectionConfigFor,
    block_number: BlockNumber,
)
    requires
        forall|i: int|
            0 <= i < collection.items@.len() ==> (#[trigger] collection.items@[i]).owner
                == collection.owner,
    ensures
        after_transfer(
            storage,
            origin,
            origin_collection,
            Some(collection),
            destination_para,
            destination,
            config,
            block_number,
        ) == storage,
{
}

/// A transfer by the owner of a collection of which any one item is somebody else's is proposed: one
/// proposal more is kept, under the next identifier, that says what was asked for, has no votes yet
/// and runs for the configured number of blocks. No other record changes.
pub proof fn law_sending_what_is_anothers_is_proposed(
    storage: Storage,
    origin_collection: CollectionId,
    collection: CollectionState,
    destination_para: ParachainID,
    destination: AccountId,
    config: CollectionConfigFor,
    block_number: BlockNumber,
    i: int,
)
    requires
        0 <= i < collection.items@.len(),
        collection.items@[i].owner != collection.owner,
        forall|id: u64| #[trigger]
            storage.proposals.contains_key(id) ==> storage.proposals[id].collection_id
                != origin_collection,
        block_number + storage.config.proposal_time_in_blocks <= u64::MAX,
    ensures
        ({
            let after = after_transfer(
                storage,
                Origin::Signed(collection.owner),
                origin_collection,
                Some(collection),
                destination_para,
                Some(destination),
                config,
                block_number,
            );
            let id = storage.next_proposal_id;
            let made = after.proposals[id];
            &&& after.proposals == storage.proposals.insert(id, made)
            &&& made.proposal_id == id
            &&& made.collection_id == origin_collection
            &&& made.proposed_collection_owner == destination
            &&& made.proposed_destination_para == destination_para
            &&& made.proposed_destination_config == config
            &&& made.owners == voters(
                collection.items@,
                collection.owner,
                storage.config.max_owners,
            )
            &&& made.aye.len() == 0
            &&& made.nay.len() == 0
            &&& made.end_time == block_number + storage.config.proposal_time_in_blocks
            &&& after.next_proposal_id == if id < u64::MAX {
                id + 1
            } else {
                1
            }
            &&& after.config == storage.config
            &&& after.sent_assets == storage.sent_assets
            &&& after.received_assets == storage.received_assets
            &&& after.received_collections == storage.received_collections
        }),
{
    assert(collection.items@[i].owner != collection.owner);
    assert(!storage.has_proposal_for(origin_collection));
}

/// A collection goes as a whole and as it is: its metadata, and every item in order with its
/// metadata, under the configuration and to the receiver that were asked for.
pub proof fn law_what_is_sent_of_a_collection(
    call: RemoteCall,
    origin_collection: CollectionId,
    collection: CollectionState,
    destination_account: Address,
    config: CollectionConfigFor,
    origin_para: ParachainID,
)
    requires
        is_same_owner_call(
            call,
            origin_collection,
            collection,
            destination_account,
            config,
            origin_para,
        ),
    ensures
        call is XcNft,
        call->XcNft_0 is ParseCollectionSameOwner,
        call->XcNft_0->ParseCollectionSameOwner_owner == destination_account,
        call->XcNft_0->ParseCollectionSameOwner_config == config,
        call->XcNft_0->ParseCollectionSameOwner_origin_para == origin_para,
        call->XcNft_0->ParseCollectionSameOwner_origin_collection_id == origin_collection,
        collection.metadata is Some
            ==> call->XcNft_0->ParseCollectionSameOwner_collection_metadata@
            == collection.metadata->0@,
        collection.metadata is None
            ==> call->XcNft_0->ParseCollectionSameOwner_collection_metadata@.len() == 0,
        call->XcNft_0->ParseCollectionSameOwner_nfts@.len() == collection.items@.len(),
        forall|i: int|
            0 <= i < collection.items@.len() ==> {
                let sent = #[trigger] call->XcNft_0->ParseCollectionSameOwner_nfts@[i];
                let kept = collection.items@[i];
                &&& sent.0 == kept.id
                &&& kept.metadata is Some ==> sent.1@ == kept.metadata->0@
                &&& kept.metadata is None ==> sent.1@.len() == 0
            },
{
}

/// A collection that goes after a vote goes as a whole: to whom, to where and as what it was proposed,
/// with its metadata, and every item in order with its owner and its metadata.
pub proof fn law_what_is_sent_after_a_vote(
    call: RemoteCall,
    proposal: ProposalView,
    collection: CollectionState,
    chain: ParachainID,
)
    requires
        is_multiple_owners_call(call, proposal, collection, chain),
    ensures
        call is XcNft,
        call->XcNft_0 is ParseCollectionMultipleOwners,
        call->XcNft_0->ParseCollectionMultipleOwners_owner == Address::Account(
            proposal.proposed_collection_owner,
        ),
        call->XcNft_0->ParseCollectionMultipleOwners_config
            == proposal.proposed_destination_config,
        call->XcNft_0->ParseCollectionMultipleOwners_origin_para == chain,
        call->XcNft_0->ParseCollectionMultipleOwners_origin_collection_id
            == proposal.collection_id,
        collection.metadata is Some
            ==> call->XcNft_0->ParseCollectionMultipleOwners_collection_metadata@
            == collection.metadata->0@,
        collection.metadata is None
            ==> call->XcNft_0->ParseCollectionMultipleOwners_collection_metadata@.len() == 0,
        call->XcNft_0->ParseCollectionMultipleOwners_nfts@.len() == collection.items@.len(),
        forall|i: int|
            0 <= i < collection.items@.len() ==> {
                let sent = #[trigger] call->XcNft_0->ParseCollectionMultipleOwners_nfts@[i];
                let kept = collection.items@[i];
                &&& sent.0 == kept.id
                &&& sent.1 == Address::Account(kept.owner)
                &&& kept.metadata is Some ==> sent.2@ == kept.metadata->0@
                &&& kept.metadata is None ==> sent.2@.len() == 0
            },
{
}

/// An item goes as it is, to the place and the receiver that were asked for, and says where it comes
/// from and who sends it.
pub proof fn law_what_is_sent_of_an_item(
    call: RemoteCall,
    who: AccountId,
    sent: AssetKey,
    destination: AssetKey,
    metadata: Option<&[u8]>,
    destination_account: Address,
    chain: ParachainID,
)
    requires
        is_nft_transfer_call(
            call,
            who,
            sent,
            destination,
            metadata,
            destination_account,
            chain,
        ),
    ensures
        call is XcNft,
        call->XcNft_0 is ParseNftTransfer,
        call->XcNft_0->ParseNftTransfer_owner == Address::Account(who),
        call->XcNft_0->ParseNftTransfer_collection == destination.collection,
        call->XcNft_0->ParseNftTransfer_item == destination.item,
        metadata is Some ==> call->XcNft_0->ParseNftTransfer_data@ == metadata->0@,
        metadata is None ==> call->XcNft_0->ParseNftTransfer_data@.len() == 0,
        call->XcNft_0->ParseNftTransfer_mint_to == destination_account,
        call->XcNft_0->ParseNftTransfer_origin_collection == sent.collection,
        call->XcNft_0->ParseNftTransfer_origin_item == sent.item,
        call->XcNft_0->ParseNftTransfer_origin_chain == chain,
{
}

/// A message goes one level up and down to the chain that is named, is executed there unpaid and
/// without a limit, whoever sent it, and makes its call as the sender's sovereign account.
pub proof fn law_where_a_message_goes(message: Message, destination: ParachainID)
    requires
        message.is_addressed_to(destination),
    ensures
        message.parents == 1,
        message.parachain == destination,
        message.unpaid_execution.weight_limit is Unlimited,
        message.unpaid_execution.check_origin is None,
        message.transact.origin_kind is SovereignAccount,
        message.transact.require_ref_time_at_most == 1_000_000_000,
        message.transact.require_proof_size_at_most == 65_536,
        message.call() == message.transact.call,
{
}

/// The identifiers of items are those of each item, in order.
pub proof fn law_ids_are_those_of_the_items(items: Seq<ItemState>)
    ensures
        item_ids(items).len() == items.len(),
        forall|i: int| 0 <= i < items.len() ==> #[trigger] item_ids(items)[i] == items[i].id,
{
}

/// Every item that is to be burned is burned, in order, by who called the pallet, and nothing else is
/// asked for.
pub proof fn law_each_item_is_burned(collection: CollectionId, items: Seq<ItemId>)
    ensures
        item_burns(collection, items).len() == items.len(),
        forall|i: int|
            0 <= i < items.len() ==> #[trigger] item_burns(collection, items)[i]
                == Effect::Dispatch(
                Dispatch {
                    origin: Caller::Caller,
                    call: NftsCall::Burn { collection, item: items[i] },
                },
            ),
{
}

/// A collection that is gone leaves nothing behind: its five records are removed, and before that a
/// deposit, if there is one, goes back in full to who owned the collection.
pub proof fn law_what_is_removed_of_a_collection(
    collection: CollectionId,
    who: AccountId,
    deposit: Option<Balance>,
)
    ensures
        ({
            let effects = collection_removals(collection, who, deposit);
            let start = if deposit is Some {
                1int
            } else {
                0
            };
            &&& effects.len() == start + 5
            &&& deposit is Some ==> effects[0] == (Effect::Unreserve { who, amount: deposit->0 })
            &&& effects[start] == (Effect::RemoveCollection { collection })
            &&& effects[start + 1] == (Effect::RemoveCollectionMetadata { collection })
            &&& effects[start + 2] == (Effect::RemoveCollectionConfig { collection })
            &&& effects[start + 3] == (Effect::RemoveCollectionRole { collection, who })
            &&& effects[start + 4] == (Effect::RemoveCollectionAccount { who, collection })
        }),
{
}

/// An item that is gone leaves nothing behind: its seven records are removed, and before that its
/// deposit goes back in full to who made it, where both are known.
pub proof fn law_what_is_removed_of_an_item(collection: CollectionId, state: ItemState)
    ensures
        ({
            let effects = item_removals(collection, state);
            let item = state.id;
            let is_owed = state.depositor is Some && state.deposit is Some;
            let start = if is_owed {
                1int
            } else {
                0
            };
            &&& effects.len() == start + 7
            &&& is_owed ==> effects[0] == (Effect::Unreserve {
                who: state.depositor->0,
                amount: state.deposit->0,
            })
            &&& effects[start] == (Effect::RemoveAccount { owner: state.owner, collection, item })
            &&& effects[start + 1] == (Effect::RemoveItem { collection, item })
            &&& effects[start + 2] == (Effect::RemovePendingSwap { collection, item })
            &&& effects[start + 3] == (Effect::RemoveItemMetadata { collection, item })
            &&& effects[start + 4] == (Effect::RemoveItemAttributesApprovals { collection, item })
            &&& effects[start + 5] == (Effect::RemoveItemPrice { collection, item })
            &&& effects[start + 6] == (Effect::RemoveItemConfig { collection, item })
        }),
{
}

/// What is removed of items is what is removed of each: one item more adds what is removed of it, at
/// the end.
pub proof fn law_what_is_removed_of_items(
    collection: CollectionId,
    items: Seq<ItemState>,
    item: ItemState,
)
    ensures
        items_removals(collection, Seq::<ItemState>::empty()).len() == 0,
        items_removals(collection, items.push(item)) == items_removals(collection, items)
            + item_removals(collection, item),
{
    assert(items.push(item).drop_last() =~= items);
}

/// A collection that went is no longer known as received; nothing else is forgotten.
pub proof fn law_what_is_forgotten_of_a_collection(storage: Storage, collection: CollectionId)
    ensures
        storage.without_received_collection(collection) == (Storage {
            received_collections: storage.received_collections.remove(collection),
            ..storage
        }),
{
}

/// A proposal that was carried out is forgotten; nothing else is.
pub proof fn law_what_is_forgotten_of_a_proposal(storage: Storage, proposal_id: u64)
    ensures
        storage.without_proposal(proposal_id) == (Storage {
            proposals: storage.proposals.remove(proposal_id),
            ..storage
        }),
{
}

/// A list without an account is the list, with that account skipped wherever it stands.
pub proof fn law_who_remains(s: Seq<AccountId>, next: AccountId, account: AccountId)
    ensures
        without(Seq::<AccountId>::empty(), account).len() == 0,
        next == account ==> without(s.push(next), account) == without(s, account),
        next != account ==> without(s.push(next), account) == without(s, account).push(next),
{
    reveal(Seq::filter);
    assert(s.push(next).drop_last() =~= s);
}

/// A vote puts who cast it at the end of the one list and takes them off the other. It changes
/// nothing else of the proposal, no other proposal and no other record.
pub proof fn law_what_a_vote_changes(
    storage: Storage,
    proposal_id: u64,
    who: AccountId,
    vote: Vote,
)
    ensures
        ({
            let after = storage.with_vote(proposal_id, who, vote);
            let p = storage.proposals[proposal_id];
            let q = after.proposals[proposal_id];
            &&& vote is Aye ==> q.aye == p.aye.push(who) && q.nay == without(p.nay, who)
            &&& vote is Nay ==> q.nay == p.nay.push(who) && q.aye == without(p.aye, who)
            &&& q == (ProposalView { aye: q.aye, nay: q.nay, ..p })
            &&& after.proposals == storage.proposals.insert(proposal_id, q)
            &&& after == (Storage { proposals: after.proposals, ..storage })
        }),
{
}

/// An item that went is remembered as sent, and no longer as received: with where it was made, which
/// is where it came from if it was received and here if not, and with its place at the destination.
/// No other record changes.
pub proof fn law_what_is_remembered_of_a_sent_item(
    storage: Storage,
    asset: AssetKey,
    destination: AssetKey,
)
    ensures
        ({
            let after = storage.with_asset_sent(asset, destination);
            let sent = after.sent_assets[asset];
            let received = storage.received_assets[asset];
            let was_received = storage.received_assets.contains_key(asset);
            &&& sent.destination_collection_id == destination.collection
            &&& sent.destination_asset_id == destination.item
            &&& was_received ==> sent.origin_para_id == received.origin_para_id
                && sent.origin_collection_id == received.origin_collection_id
                && sent.origin_asset_id == received.origin_asset_id
            &&& !was_received ==> sent.origin_para_id == storage.config.parachain_id
                && sent.origin_collection_id == asset.collection && sent.origin_asset_id
                == asset.item
            &&& after.sent_assets == storage.sent_assets.insert(asset, sent)
            &&& after.received_assets == storage.received_assets.remove(asset)
            &&& after == (Storage {
                sent_assets: after.sent_assets,
                received_assets: after.received_assets,
                ..storage
            })
        }),
{
}

/// An item that had been received is burned once it went on; one that was made here stays, without its
/// metadata, settings and price.
pub proof fn law_what_is_done_with_a_sent_item(asset: AssetKey)
    ensures
        sent_item_effects(asset, true).len() == 1,
        sent_item_effects(asset, true)[0] == Effect::Dispatch(
            Dispatch {
                origin: Caller::Caller,
                call: NftsCall::Burn { collection: asset.collection, item: asset.item },
            },
        ),
        sent_item_effects(asset, false).len() == 3,
        sent_item_effects(asset, false)[0] == (Effect::RemoveItemMetadata {
            collection: asset.collection,
            item: asset.item,
        }),
        sent_item_effects(asset, false)[1] == (Effect::RemoveItemConfig {
            collection: asset.collection,
            item: asset.item,
        }),
        sent_item_effects(asset, false)[2] == (Effect::RemoveItemPrice {
            collection: asset.collection,
            item: asset.item,
        }),
{
}

/// A claim burns the one item, gives its metadata to the other, both as who claimed, and forgets that
/// the first was received; it changes nothing else.
pub proof fn law_what_a_claim_does(
    storage: Storage,
    effects: Seq<Effect>,
    claimed: AssetKey,
    current: AssetKey,
    metadata: Option<&[u8]>,
)
    requires
        is_claim(effects, claimed, current, metadata),
    ensures
        effects.len() == 2,
        effects[0] == Effect::Dispatch(
            Dispatch {
                origin: Caller::Caller,
                call: NftsCall::Burn { collection: current.collection, item: current.item },
            },
        ),
        effects[1] is Dispatch,
        effects[1]->Dispatch_0.origin == Caller::Caller,
        effects[1]->Dispatch_0.call is SetMetadata,
        effects[1]->Dispatch_0.call->SetMetadata_collection == claimed.collection,
        effects[1]->Dispatch_0.call->SetMetadata_item == claimed.item,
        metadata is Some ==> effects[1]->Dispatch_0.call->SetMetadata_data@ == metadata->0@,
        metadata is None ==> effects[1]->Dispatch_0.call->SetMetadata_data@.len() == 0,
        storage.without_received_asset(current) == (Storage {
            received_assets: storage.received_assets.remove(current),
            ..storage
        }),
{
}

} // verus!
