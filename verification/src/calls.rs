//! What each call of the pallet promises whoever makes it, for all it may be given and return.
use pallet_nfts::DestroyWitness;
use staging_xcm::latest::SendError;
use vstd::prelude::*;

use crate::message::{Call, Effect, Message, NftsCall, RemoteCall};
use crate::nft::PendingNft;
use crate::pallet::{ensure_signed, metadata_or_empty, Pallet, Storage};
use crate::proposal::{Initiation, PendingInitiation};
use crate::refusals::{
    law_when_a_proposal_is_carried_out, law_who_may_claim_an_item, law_who_may_send_an_item,
    law_who_may_transfer_a_collection, law_who_may_vote,
};
use crate::remote::{Change, Request};
use crate::transfer::{CollectionDelivery, CollectionTransfer, PendingCollection};
use crate::types::{
    AccountId, Address, AssetKey, Balance, BlockNumber, CollectionConfigFor, CollectionId,
    CollectionState, Config, Event, Failure, ItemId, ItemState, Origin, ParachainID, Vote,
};

verus! {

/// A new pallet remembers nothing but its configuration.
pub proof fn law_what_a_new_pallet_promises(config: Config, r: Pallet)
    requires
        call_ensures(Pallet::new, (config,), r),
    ensures
        r@.config == config,
        r@.next_proposal_id == 0,
        forall|id: u64| !(#[trigger] r@.proposals.contains_key(id)),
        forall|asset: AssetKey| !(#[trigger] r@.sent_assets.contains_key(asset)),
        forall|asset: AssetKey| !(#[trigger] r@.received_assets.contains_key(asset)),
        forall|collection: CollectionId| !(#[trigger] r@.received_collections.contains_key(
            collection,
        )),
{
}

/// Every message goes to the sibling chain that is named, carries the call that is given, and is
/// executed there unpaid, as the sender's sovereign account.
pub proof fn law_what_a_message_promises<'a>(
    destination: ParachainID,
    call: RemoteCall<'a>,
    r: Message<'a>,
)
    requires
        call_ensures(Message::to_sibling, (destination, call), r),
    ensures
        r.parents == 1,
        r.parachain == destination,
        r.unpaid_execution.weight_limit is Unlimited,
        r.unpaid_execution.check_origin is None,
        r.transact.origin_kind is SovereignAccount,
        r.transact.require_ref_time_at_most == 1_000_000_000,
        r.transact.require_proof_size_at_most == 65_536,
        r.transact.call == call,
{
}

/// A signed call is made by who signed it, and no other call is signed; metadata is what is stored, or
/// no bytes.
pub proof fn law_what_is_read_of_a_call<'a>(
    origin: Origin,
    metadata: Option<&'a [u8]>,
    signed: Result<AccountId, Failure>,
    bytes: &'a [u8],
)
    ensures
        call_ensures(ensure_signed, (origin,), signed) ==> {
            &&& signed is Ok <==> origin is Signed
            &&& signed matches Ok(who) ==> who == origin->0
            &&& signed matches Err(failure) ==> failure == Failure::BadOrigin
        },
        call_ensures(metadata_or_empty, (metadata,), bytes) ==> {
            &&& metadata is Some ==> bytes@ == metadata->0@
            &&& metadata is None ==> bytes@.len() == 0
        },
{
}

/// A transfer is accepted from the owner of a collection alone. The collection goes, with all its
/// items, where every item is the owner's; where any one is not, a proposal is kept instead, unless
/// there is one for the collection or the receiver is not known. A refused transfer, and one that
/// goes, leaves what is remembered as it was.
pub proof fn law_what_a_transfer_promises<'a>(
    pallet: &mut Pallet,
    origin: Origin,
    origin_collection: CollectionId,
    destination_para: ParachainID,
    destination_account: Address<'a>,
    config: CollectionConfigFor,
    collection: Option<CollectionState<'a>>,
    destination: Option<AccountId>,
    block_number: BlockNumber,
    r: Result<CollectionTransfer<'a>, Failure>,
)
    requires
        call_ensures(
            Pallet::collection_x_transfer,
            (
                pallet,
                origin,
                origin_collection,
                destination_para,
                destination_account,
                config,
                collection,
                destination,
                block_number,
            ),
            r,
        ),
    ensures
        ({
            let items = collection->0.items@;
            let owner = collection->0.owner;
            let is_owner = origin is Signed && collection is Some && owner == origin->0;
            let all_are_theirs = forall|i: int|
                0 <= i < items.len() ==> (#[trigger] items[i]).owner == owner;
            let is_proposed = exists|id: u64| #[trigger]
                old(pallet)@.proposals.contains_key(id) && old(pallet)@.proposals[id].collection_id
                    == origin_collection;
            let id = old(pallet)@.next_proposal_id;
            &&& (r is Ok && r->Ok_0 is Send) <==> is_owner && all_are_theirs
            &&& (r is Ok && r->Ok_0 is Proposed) <==> is_owner && !all_are_theirs
                && !is_proposed && destination is Some
            &&& !(r is Ok && r->Ok_0 is Proposed) ==> final(pallet)@ == old(pallet)@
            &&& r matches Ok(CollectionTransfer::Proposed(event)) ==> {
                &&& final(pallet)@.proposals.contains_key(id)
                &&& final(pallet)@.proposals[id].collection_id == origin_collection
                &&& final(pallet)@.proposals[id].aye.len() == 0
                &&& final(pallet)@.proposals[id].nay.len() == 0
                &&& forall|other: u64|
                    other != id ==> (#[trigger] final(pallet)@.proposals.contains_key(other) <==> old(
                        pallet,
                    )@.proposals.contains_key(other)) && (old(pallet)@.proposals.contains_key(
                        other,
                    ) ==> final(pallet)@.proposals[other] == old(pallet)@.proposals[other])
                &&& event == (Event::CollectionTransferProposalCreated {
                    proposal_id: id,
                    collection_id: origin_collection,
                    proposer: owner,
                    proposed_collection_owner: destination_account,
                    destination: destination_para,
                })
            }
            &&& r matches Ok(CollectionTransfer::Send { message, pending }) ==> {
                &&& message.parents == 1
                &&& message.parachain == destination_para
                &&& items.len() == 0 ==> message.transact.call == RemoteCall::XcNft(
                    Call::ParseCollectionEmpty {
                        origin_collection,
                        receiving_account: destination_account,
                        config,
                        origin_para: old(pallet)@.config.parachain_id,
                    },
                )
                &&& items.len() > 0 ==> {
                    &&& message.transact.call matches RemoteCall::XcNft(
                        Call::ParseCollectionSameOwner {
                            owner: receiver,
                            config: sent_config,
                            nfts,
                            origin_para,
                            origin_collection_id,
                            ..
                        },
                    )
                    &&& receiver == destination_account
                    &&& sent_config == config
                    &&& origin_para == old(pallet)@.config.parachain_id
                    &&& origin_collection_id == origin_collection
                    &&& nfts@.len() == items.len()
                }
                &&& pending.who == owner
                &&& pending.collection == origin_collection
                &&& pending.destination_para == destination_para
                &&& pending.destination_account == destination_account
                &&& pending.items@.len() == items.len()
                &&& forall|i: int|
                    0 <= i < items.len() ==> #[trigger] pending.items@[i] == items[i].id
            }
        }),
{
    law_who_may_transfer_a_collection(
        old(pallet)@,
        origin,
        origin_collection,
        collection,
        destination,
    );
}

/// Whether a transfer would be proposed is told without making it.
pub proof fn law_what_asking_for_a_proposal_promises(
    pallet: Pallet,
    origin: Origin,
    origin_collection: CollectionId,
    collection: Option<CollectionState>,
    destination: Option<AccountId>,
    r: bool,
)
    requires
        call_ensures(
            Pallet::makes_proposal,
            (&pallet, origin, origin_collection, collection, destination),
            r,
        ),
    ensures
        r <==> {
            &&& origin is Signed
            &&& collection is Some
            &&& collection->0.owner == origin->0
            &&& exists|i: int|
                0 <= i < collection->0.items@.len() && (#[trigger] collection->0.items@[i]).owner
                    != origin->0
            &&& forall|id: u64| #[trigger]
                pallet@.proposals.contains_key(id) ==> pallet@.proposals[id].collection_id
                    != origin_collection
            &&& destination is Some
        },
{
    law_who_may_transfer_a_collection(
        pallet@,
        origin,
        origin_collection,
        collection,
        destination,
    );
}

/// Once the router has taken a collection, each of its items is burned and it is no longer known as
/// received. Where the router has not, the failure is told and everything stays.
pub proof fn law_what_delivery_of_a_collection_promises<'a>(
    pallet: &mut Pallet,
    pending: PendingCollection<'a>,
    sent: Result<(), SendError>,
    r: CollectionDelivery<'a>,
)
    requires
        call_ensures(Pallet::collection_x_transfer_sent, (pallet, pending, sent), r),
    ensures
        sent is Ok ==> {
            &&& r matches CollectionDelivery::Delivered { burns, pending: still }
            &&& still == pending
            &&& burns@.len() == pending.items@.len()
            &&& forall|i: int|
                0 <= i < burns@.len() ==> (#[trigger] burns@[i] matches Effect::Dispatch(dispatch)
                    && dispatch.call == (NftsCall::Burn {
                    collection: pending.collection,
                    item: pending.items@[i],
                }))
            &&& final(pallet)@ == (Storage {
                received_collections: old(pallet)@.received_collections.remove(
                    pending.collection,
                ),
                ..old(pallet)@
            })
        },
        sent matches Err(e) ==> {
            &&& r == CollectionDelivery::Failed(
                Event::CollectionFailedToXCM {
                    e,
                    collection_id: pending.collection,
                    owner: pending.who,
                    destination: pending.destination_para,
                },
            )
            &&& final(pallet)@ == old(pallet)@
        },
{
}

/// A collection that is gone is removed, its deposit goes back to its owner in full, and it is told
/// where it went, with which items and to whom.
pub proof fn law_what_the_end_of_a_transfer_promises<'a>(
    pending: PendingCollection<'a>,
    deposit: Option<Balance>,
    r: (Vec<Effect<'static>>, Event<'a>),
)
    requires
        call_ensures(Pallet::collection_x_transfer_burned, (pending, deposit), r),
    ensures
        r.0@.len() == if deposit is Some {
            6int
        } else {
            5
        },
        deposit is Some ==> r.0@[0] == (Effect::Unreserve {
            who: pending.who,
            amount: deposit->0,
        }),
        r.0@[r.0@.len() - 5] == (Effect::RemoveCollection { collection: pending.collection }),
        pending.items@.len() == 0 ==> r.1 == (Event::CollectionTransferred {
            origin_collection_id: pending.collection,
            destination_para_id: pending.destination_para,
            to_address: pending.destination_account,
        }),
        pending.items@.len() > 0 ==> r.1 == (Event::CollectionAndNFTsTransferred {
            origin_collection_id: pending.collection,
            nft_ids: pending.items,
            destination_para_id: pending.destination_para,
            to_address: pending.destination_account,
        }),
{
}

/// A vote is taken from who is listed, in time, where it is not the vote that already counts and there
/// is room. It then counts, the other vote of the same account no longer does, and nobody else's
/// changes; a vote that is not taken changes nothing.
pub proof fn law_what_a_vote_promises(
    pallet: &mut Pallet,
    origin: Origin,
    proposal_id: u64,
    vote: Vote,
    block_number: BlockNumber,
    r: Result<Event<'static>, Failure>,
)
    requires
        call_ensures(
            Pallet::collection_x_transfer_vote,
            (pallet, origin, proposal_id, vote, block_number),
            r,
        ),
    ensures
        ({
            let who = origin->0;
            let before = old(pallet)@.proposals[proposal_id];
            let after = final(pallet)@.proposals[proposal_id];
            &&& r is Ok <==> {
                &&& origin is Signed
                &&& old(pallet)@.proposals.contains_key(proposal_id)
                &&& before.owners.contains(who)
                &&& block_number <= before.end_time
                &&& vote is Aye ==> !before.aye.contains(who) && before.aye.len() < old(
                    pallet,
                )@.config.max_owners
                &&& vote is Nay ==> (before.aye.contains(who) || !before.nay.contains(who))
                    && before.nay.len() < old(pallet)@.config.max_owners
            }
            &&& r is Err ==> final(pallet)@ == old(pallet)@
            &&& r is Ok ==> {
                &&& r->Ok_0 == (Event::CrossChainPropoposalVoteRegistered {
                    proposal_id,
                    voter: who,
                    vote,
                })
                &&& vote is Aye ==> after.aye == before.aye.push(who)
                &&& vote is Nay ==> after.nay == before.nay.push(who)
                &&& after.owners == before.owners
                &&& after.end_time == before.end_time
                &&& after.collection_id == before.collection_id
                &&& final(pallet)@ == (Storage {
                    proposals: old(pallet)@.proposals.insert(proposal_id, after),
                    ..old(pallet)@
                })
            }
        }),
{
    law_who_may_vote(old(pallet)@, origin, proposal_id, vote, block_number);
}

/// A proposal is carried out for the owner of its collection, once the time to vote is over, where
/// somebody voted and there are no more nays than ayes; in no other case. The collection then goes
/// where, to whom and as what was proposed, and the proposal waits for the router where it has items.
pub proof fn law_what_an_initiation_promises<'a>(
    pallet: &mut Pallet,
    origin: Origin,
    proposal_id: u64,
    collection: Option<CollectionState<'a>>,
    block_number: BlockNumber,
    r: Result<Initiation<'a>, Failure>,
)
    requires
        call_ensures(
            Pallet::collection_x_transfer_initiate,
            (pallet, origin, proposal_id, collection, block_number),
            r,
        ),
    ensures
        ({
            let p = old(pallet)@.proposals[proposal_id];
            let items = collection->0.items@;
            &&& r is Ok <==> {
                &&& origin is Signed
                &&& old(pallet)@.proposals.contains_key(proposal_id)
                &&& collection is Some
                &&& collection->0.owner == origin->0
                &&& block_number >= p.end_time
                &&& p.aye.len() + p.nay.len() > 0
                &&& p.nay.len() <= p.aye.len()
            }
            &&& r is Ok ==> (r->Ok_0 is Regular <==> items.len() == 0)
            &&& !(r is Ok && items.len() == 0) ==> final(pallet)@ == old(pallet)@
            &&& r is Ok && items.len() == 0 ==> final(pallet)@ == (Storage {
                proposals: old(pallet)@.proposals.remove(proposal_id),
                ..old(pallet)@
            })
            &&& r matches Ok(Initiation::Regular { message, pending }) ==> {
                &&& message.parachain == p.proposed_destination_para
                &&& message.transact.call == RemoteCall::XcNft(
                    Call::ParseCollectionEmpty {
                        origin_collection: p.collection_id,
                        receiving_account: Address::Account(p.proposed_collection_owner),
                        config: p.proposed_destination_config,
                        origin_para: old(pallet)@.config.parachain_id,
                    },
                )
                &&& pending.who == origin->0
                &&& pending.collection == p.collection_id
            }
            &&& r matches Ok(Initiation::Send { message, pending }) ==> {
                &&& message.parachain == p.proposed_destination_para
                &&& message.transact.call matches RemoteCall::XcNft(
                    Call::ParseCollectionMultipleOwners {
                        owner,
                        config,
                        nfts,
                        origin_para,
                        origin_collection_id,
                        ..
                    },
                )
                &&& owner == Address::Account(p.proposed_collection_owner)
                &&& config == p.proposed_destination_config
                &&& origin_para == old(pallet)@.config.parachain_id
                &&& origin_collection_id == p.collection_id
                &&& nfts@.len() == items.len()
                &&& pending == (PendingInitiation {
                    who: origin->0,
                    proposal_id,
                    collection: p.collection_id,
                    items: collection->0.items,
                    destination_para: p.proposed_destination_para,
                    recipient: p.proposed_collection_owner,
                })
            }
        }),
{
    law_when_a_proposal_is_carried_out(
        old(pallet)@,
        origin,
        proposal_id,
        collection,
        block_number,
    );
}

/// Once the router has taken a collection that was voted on, its proposal and its record are gone and
/// it is told which items went; where the router has not, everything stays and nothing is removed.
pub proof fn law_what_the_end_of_an_initiation_promises(
    pallet: &mut Pallet,
    pending: PendingInitiation,
    sent: Result<(), SendError>,
    deposit: Option<Balance>,
    r: (Vec<Effect<'static>>, Event<'static>),
)
    requires
        call_ensures(
            Pallet::collection_x_transfer_initiate_sent,
            (pallet, pending, sent, deposit),
            r,
        ),
    ensures
        sent is Ok ==> {
            &&& final(pallet)@ == (Storage {
                received_collections: old(pallet)@.received_collections.remove(
                    pending.collection,
                ),
                proposals: old(pallet)@.proposals.remove(pending.proposal_id),
                ..old(pallet)@
            })
            &&& r.1 matches Event::CollectionAndNFTsTransferred {
                origin_collection_id,
                nft_ids,
                destination_para_id,
                to_address,
            }
            &&& origin_collection_id == pending.collection
            &&& nft_ids@.len() == pending.items@.len()
            &&& forall|i: int|
                0 <= i < nft_ids@.len() ==> #[trigger] nft_ids@[i] == pending.items@[i].id
            &&& destination_para_id == pending.destination_para
            &&& to_address == Address::Account(pending.recipient)
        },
        sent matches Err(e) ==> {
            &&& final(pallet)@ == old(pallet)@
            &&& r.0@.len() == 0
            &&& r.1 == (Event::CollectionFailedToXCM {
                e,
                collection_id: pending.collection,
                owner: pending.who,
                destination: pending.destination_para,
            })
        },
{
}

/// An item that exists, in a collection that exists, goes exactly where its owner asks for it,
/// whatever else is stored about it; it goes to the place and the receiver that were asked for.
pub proof fn law_what_sending_an_item_promises<'a>(
    pallet: Pallet,
    origin: Origin,
    origin_collection: CollectionId,
    origin_asset: ItemId,
    destination_para: ParachainID,
    destination_account: Address<'a>,
    destination_collection: CollectionId,
    destination_asset: ItemId,
    collection_exists: bool,
    item: Option<ItemState<'a>>,
    r: Result<(Message<'a>, PendingNft<'a>), Failure>,
)
    requires
        call_ensures(
            Pallet::nft_x_transfer,
            (
                &pallet,
                origin,
                origin_collection,
                origin_asset,
                destination_para,
                destination_account,
                destination_collection,
                destination_asset,
                collection_exists,
                item,
            ),
            r,
        ),
    ensures
        r is Ok <==> origin is Signed && collection_exists && item is Some && item->0.owner
            == origin->0,
        r matches Ok((message, pending)) ==> {
            &&& message.parents == 1
            &&& message.parachain == destination_para
            &&& message.transact.call matches RemoteCall::XcNft(
                Call::ParseNftTransfer {
                    owner,
                    collection,
                    item: sent_item,
                    data,
                    mint_to,
                    origin_collection: from_collection,
                    origin_item,
                    origin_chain,
                },
            )
            &&& owner == Address::Account(origin->0)
            &&& collection == destination_collection
            &&& sent_item == destination_asset
            &&& item->0.metadata is Some ==> data@ == item->0.metadata->0@
            &&& item->0.metadata is None ==> data@.len() == 0
            &&& mint_to == destination_account
            &&& from_collection == origin_collection
            &&& origin_item == origin_asset
            &&& origin_chain == pallet@.config.parachain_id
            &&& pending == (PendingNft {
                who: origin->0,
                asset: AssetKey { collection: origin_collection, item: origin_asset },
                destination_para,
                destination_account,
                destination: AssetKey {
                    collection: destination_collection,
                    item: destination_asset,
                },
            })
        },
{
    law_who_may_send_an_item(origin, collection_exists, item);
}

/// Once the router has taken an item, it is known as sent, to where it went, and not as received; it is
/// burned if it had been received and stays as a bare placeholder if not. Where the router has not,
/// everything stays.
pub proof fn law_what_delivery_of_an_item_promises<'a>(
    pallet: &mut Pallet,
    pending: PendingNft<'a>,
    sent: Result<(), SendError>,
    r: (Vec<Effect<'static>>, Event<'a>),
)
    requires
        call_ensures(Pallet::nft_x_transfer_sent, (pallet, pending, sent), r),
    ensures
        sent is Ok ==> {
            let record = final(pallet)@.sent_assets[pending.asset];
            let was_received = old(pallet)@.received_assets.contains_key(pending.asset);
            &&& final(pallet)@ == (Storage {
                sent_assets: old(pallet)@.sent_assets.insert(pending.asset, record),
                received_assets: old(pallet)@.received_assets.remove(pending.asset),
                ..old(pallet)@
            })
            &&& record.destination_collection_id == pending.destination.collection
            &&& record.destination_asset_id == pending.destination.item
            &&& !was_received ==> record.origin_para_id == old(pallet)@.config.parachain_id
            &&& was_received ==> record.origin_para_id == old(
                pallet,
            )@.received_assets[pending.asset].origin_para_id
            &&& was_received <==> r.0@[0] is Dispatch
            &&& r.0@.len() == if was_received {
                1int
            } else {
                3
            }
            &&& r.1 == (Event::NFTTransferred {
                origin_collection_id: pending.asset.collection,
                origin_asset_id: pending.asset.item,
                destination_para_id: pending.destination_para,
                destination_collection_id: pending.destination.collection,
                destination_asset_id: pending.destination.item,
                to_address: pending.destination_account,
            })
        },
        sent matches Err(e) ==> {
            &&& final(pallet)@ == old(pallet)@
            &&& r.0@.len() == 0
            &&& r.1 == (Event::CollectionFailedToXCM {
                e,
                collection_id: pending.asset.collection,
                owner: pending.who,
                destination: pending.destination_para,
            })
        },
{
}

/// A claim is accepted exactly where the caller signed it, both collections exist, the one that was
/// received came from the one that is named, the item is known as received, and the caller owns both
/// items. It then burns the one item, hands its metadata to the other, and forgets that the first was
/// received; a refused claim changes nothing.
pub proof fn law_what_a_claim_promises<'a>(
    pallet: &mut Pallet,
    origin: Origin,
    origin_collection_at_destination: CollectionId,
    origin_collection_at_origin: CollectionId,
    origin_asset_at_destination: ItemId,
    current_collection: CollectionId,
    current_asset: ItemId,
    current_collection_exists: bool,
    origin_collection_exists: bool,
    origin_item_owner: Option<AccountId>,
    current_item: Option<ItemState<'a>>,
    r: Result<(Vec<Effect<'a>>, Event<'static>), Failure>,
)
    requires
        origin is Signed && current_collection_exists && origin_collection_exists ==> old(
            pallet,
        )@.received_collections.contains_key(origin_collection_at_destination),
        call_ensures(
            Pallet::nft_x_claim,
            (
                pallet,
                origin,
                origin_collection_at_destination,
                origin_collection_at_origin,
                origin_asset_at_destination,
                current_collection,
                current_asset,
                current_collection_exists,
                origin_collection_exists,
                origin_item_owner,
                current_item,
            ),
            r,
        ),
    ensures
        ({
            let current = AssetKey { collection: current_collection, item: current_asset };
            let received = old(pallet)@.received_collections[origin_collection_at_destination];
            &&& r is Ok <==> {
                &&& origin is Signed
                &&& current_collection_exists
                &&& origin_collection_exists
                &&& received.origin_collection_id == origin_collection_at_origin
                &&& old(pallet)@.received_assets.contains_key(current)
                &&& origin_item_owner == Some(origin->0)
                &&& current_item is Some
                &&& current_item->0.owner == origin->0
            }
            &&& r is Err ==> final(pallet)@ == old(pallet)@
            &&& r matches Ok((effects, event)) ==> {
                &&& final(pallet)@ == (Storage {
                    received_assets: old(pallet)@.received_assets.remove(current),
                    ..old(pallet)@
                })
                &&& effects@.len() == 2
                &&& effects@[0] is Dispatch
                &&& effects@[0]->Dispatch_0.call == (NftsCall::Burn {
                    collection: current_collection,
                    item: current_asset,
                })
                &&& effects@[1] is Dispatch
                &&& effects@[1]->Dispatch_0.call is SetMetadata
                &&& effects@[1]->Dispatch_0.call->SetMetadata_collection
                    == origin_collection_at_destination
                &&& effects@[1]->Dispatch_0.call->SetMetadata_item == origin_asset_at_destination
                &&& current_item->0.metadata is Some
                    ==> effects@[1]->Dispatch_0.call->SetMetadata_data@
                    == current_item->0.metadata->0@
                &&& event == (Event::NFTClaimed {
                    collection_claimed_from: current_collection,
                    asset_removed: current_asset,
                    collection_claimed_to: origin_collection_at_destination,
                    asset_claimed: origin_asset_at_destination,
                })
            }
        }),
{
    law_who_may_claim_an_item(
        old(pallet)@,
        origin,
        origin_collection_at_destination,
        origin_collection_at_origin,
        AssetKey { collection: current_collection, item: current_asset },
        current_collection_exists,
        origin_collection_exists,
        origin_item_owner,
        current_item,
    );
}

/// Every signed request for a change is sent, to the chain that is named, for the change that was
/// asked for and for the account that asked; nothing unsigned is.
pub proof fn law_what_changing_metadata_promises<'a>(
    origin: Origin,
    collection_id: CollectionId,
    asset_id: ItemId,
    destination: ParachainID,
    data: &'a [u8],
    r: Result<Request<'a>, Failure>,
)
    ensures
        call_ensures(Pallet::collection_x_update, (origin, collection_id, destination, data), r)
            ==> {
            &&& r is Ok <==> origin is Signed
            &&& r is Err ==> r->Err_0 == Failure::BadOrigin
            &&& r matches Ok(request) ==> request.message.parachain == destination
                && request.destination == destination && request.change == (
            Change::CollectionMetadata { collection_id, data, owner: origin->0 })
                && request.message.transact.call == request.change.remote_call()
        },
        call_ensures(
            Pallet::nft_x_update,
            (origin, collection_id, asset_id, destination, data),
            r,
        ) ==> {
            &&& r is Ok <==> origin is Signed
            &&& r is Err ==> r->Err_0 == Failure::BadOrigin
            &&& r matches Ok(request) ==> request.message.parachain == destination
                && request.destination == destination && request.change == (Change::NftMetadata {
                collection_id,
                asset_id,
                data,
                owner: origin->0,
            }) && request.message.transact.call == request.change.remote_call()
        },
{
}

/// Every signed request for a burning is sent, to the chain that is named, for what is to be burned
/// and for the account that asked; nothing unsigned is.
pub proof fn law_what_burning_promises(
    origin: Origin,
    collection_id: CollectionId,
    asset_id: ItemId,
    destination: ParachainID,
    burn_data: DestroyWitness,
    r: Result<Request<'static>, Failure>,
)
    ensures
        call_ensures(
            Pallet::collection_x_burn,
            (origin, collection_id, destination, burn_data),
            r,
        ) ==> {
            &&& r is Ok <==> origin is Signed
            &&& r is Err ==> r->Err_0 == Failure::BadOrigin
            &&& r matches Ok(request) ==> request.message.parachain == destination
                && request.destination == destination && request.change == (
            Change::CollectionBurn { collection_id, burn_data, owner: origin->0 })
                && request.message.transact.call == request.change.remote_call()
        },
        call_ensures(Pallet::nft_x_burn, (origin, collection_id, asset_id, destination), r) ==> {
            &&& r is Ok <==> origin is Signed
            &&& r is Err ==> r->Err_0 == Failure::BadOrigin
            &&& r matches Ok(request) ==> request.message.parachain == destination
                && request.destination == destination && request.change == (Change::NftBurn {
                collection_id,
                asset_id,
                owner: origin->0,
            }) && request.message.transact.call == request.change.remote_call()
        },
{
}

/// Every signed request to give something away is sent, to the chain that is named and for the new
/// owner that is named; nothing unsigned is.
pub proof fn law_what_giving_promises<'a>(
    origin: Origin,
    collection_id: CollectionId,
    asset_id: ItemId,
    destination: ParachainID,
    new_owner: Address<'a>,
    r: Result<Request<'a>, Failure>,
)
    ensures
        call_ensures(
            Pallet::collection_x_change_owner,
            (origin, collection_id, destination, new_owner),
            r,
        ) ==> {
            &&& r is Ok <==> origin is Signed
            &&& r is Err ==> r->Err_0 == Failure::BadOrigin
            &&& r matches Ok(request) ==> request.message.parachain == destination
                && request.destination == destination && request.change == (
            Change::CollectionOwner { collection_id, new_owner }) && request.message.transact.call
                == request.change.remote_call()
        },
        call_ensures(
            Pallet::nft_x_change_owner,
            (origin, collection_id, asset_id, destination, new_owner),
            r,
        ) ==> {
            &&& r is Ok <==> origin is Signed
            &&& r is Err ==> r->Err_0 == Failure::BadOrigin
            &&& r matches Ok(request) ==> request.message.parachain == destination
                && request.destination == destination && request.change == (Change::NftOwner {
                collection_id,
                asset_id,
                new_owner,
                owner: origin->0,
            }) && request.message.transact.call == request.change.remote_call()
        },
{
}

/// Whether a message about a change went out is told as it was: a success where the router took it, and
/// otherwise its error.
pub proof fn law_what_is_told_of_a_change<'a>(
    change: Change<'a>,
    destination: ParachainID,
    sent: Result<(), SendError>,
    r: Event<'a>,
)
    requires
        call_ensures(Change::sent, (change, destination, sent), r),
    ensures
        sent is Ok ==> r == change.sent_event(destination),
        sent matches Err(e) ==> r == change.failed_event(destination, e),
{
}

} // verus!
