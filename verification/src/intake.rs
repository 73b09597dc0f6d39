//! What each call that another chain has made promises, for all it may be given and return.
use pallet_nfts::DestroyWitness;
use sp_runtime::DispatchError;
use vstd::prelude::*;

use crate::arrival::{
    ArrivalStep, CollectionArrival, IncomingCollection, IncomingNft, NftArrival,
};
use crate::message::{Caller, Dispatch, NftsCall};
use crate::pallet::{Pallet, Storage};
use crate::receive::{Attempt, Attempted};
use crate::refusals::law_which_items_are_taken;
use crate::types::{
    AccountId, Address, AssetKey, CollectionConfigFor, CollectionId, DestroyError, Error, Event,
    Failure, ItemId, ParachainID,
};

verus! {

/// A collection without items is created for who is to receive it, as configured, and it is told
/// whether that worked.
pub proof fn law_what_taking_an_empty_collection_promises<'a>(
    origin_collection: CollectionId,
    receiver: Address<'a>,
    config: CollectionConfigFor,
    created: Result<(), DispatchError>,
    create: Dispatch<'a>,
    told: Event<'a>,
)
    ensures
        call_ensures(Pallet::parse_collection_empty, (receiver, config), create) ==> {
            &&& create.origin == Caller::Caller
            &&& create.call == (NftsCall::Create { admin: receiver, config })
        },
        call_ensures(
            Pallet::parse_collection_empty_created,
            (origin_collection, receiver, created),
            told,
        ) ==> {
            &&& created is Ok ==> told == (Event::CollectionReceived {
                origin_collection_id: origin_collection,
                received_collection_id: origin_collection,
                to_address: receiver,
            })
            &&& created matches Err(error) ==> told == (Event::CollectionCreationFailed {
                error,
                owner: receiver,
            })
        },
{
}

/// A collection is burned as the account to which the sender's address resolves, with the witness that
/// came, and only a failure is told.
pub proof fn law_what_burning_a_collection_promises<'a>(
    owner: Address<'a>,
    collection: CollectionId,
    witness: DestroyWitness,
    account: Option<AccountId>,
    burned: Result<(), DestroyError>,
    r: Result<Dispatch<'static>, Failure>,
    told: Option<Event<'a>>,
)
    ensures
        call_ensures(Pallet::parse_collection_burn, (collection, witness, account), r) ==> {
            &&& r is Ok <==> account is Some
            &&& r matches Ok(dispatch) ==> dispatch.origin == Caller::Signed(account->0)
                && dispatch.call == (NftsCall::Destroy { collection, witness })
            &&& r matches Err(failure) ==> failure == Failure::Module(Error::AccountLookupFailed)
        },
        call_ensures(Pallet::parse_collection_burned, (owner, collection, burned), told) ==> {
            &&& told is Some <==> burned is Err
            &&& burned matches Err(error) ==> told == Some(
                Event::CollectionBurnFailed { error, collection_id: collection, owner },
            )
        },
{
}

/// The metadata or the owner of a collection are changed to what came, as the account to which the
/// sender's address resolves, and refused where it resolves to none.
pub proof fn law_what_changing_a_collection_promises<'a>(
    owner: Address<'a>,
    new_owner: Address<'a>,
    collection: CollectionId,
    data: &'a [u8],
    account: Option<AccountId>,
    r: Result<Attempted<'a>, Failure>,
)
    ensures
        call_ensures(Pallet::parse_collection_metadata, (owner, collection, data, account), r) ==> {
            &&& r is Ok <==> account is Some
            &&& r matches Ok(done) ==> done.dispatch.origin == Caller::Signed(account->0)
                && done.dispatch.call == (NftsCall::SetCollectionMetadata { collection, data })
                && done.attempt == (Attempt::SetCollectionMetadata { collection, owner })
            &&& r matches Err(failure) ==> failure == Failure::Module(Error::AccountLookupFailed)
        },
        call_ensures(
            Pallet::parse_collection_owner,
            (owner, new_owner, collection, account),
            r,
        ) ==> {
            &&& r is Ok <==> account is Some
            &&& r matches Ok(done) ==> done.dispatch.origin == Caller::Signed(account->0)
                && done.dispatch.call == (NftsCall::TransferOwnership { collection, new_owner })
                && done.attempt == (Attempt::TransferCollection { collection, owner })
            &&& r matches Err(failure) ==> failure == Failure::Module(Error::AccountLookupFailed)
        },
{
}

/// An item is burned, given away, or given the metadata that came, as the account to which the sender's
/// address resolves, and that is refused where it resolves to none.
pub proof fn law_what_changing_an_item_promises<'a>(
    owner: Address<'a>,
    new_owner: Address<'a>,
    collection: CollectionId,
    item: ItemId,
    data: &'a [u8],
    account: Option<AccountId>,
    r: Result<Attempted<'a>, Failure>,
)
    ensures
        call_ensures(Pallet::parse_nft_burn, (owner, collection, item, account), r) ==> {
            &&& r is Ok <==> account is Some
            &&& r matches Ok(done) ==> done.dispatch.origin == Caller::Signed(account->0)
                && done.dispatch.call == (NftsCall::Burn { collection, item }) && done.attempt == (
            Attempt::Burn { collection, item, owner })
            &&& r matches Err(failure) ==> failure == Failure::Module(Error::AccountLookupFailed)
        },
        call_ensures(Pallet::parse_nft_metadata, (owner, collection, item, data, account), r) ==> {
            &&& r is Ok <==> account is Some
            &&& r matches Ok(done) ==> done.dispatch.origin == Caller::Signed(account->0)
                && done.dispatch.call == (NftsCall::SetMetadata { collection, item, data })
                && done.attempt == (Attempt::SetMetadata { collection, item, owner })
            &&& r matches Err(failure) ==> failure == Failure::Module(Error::AccountLookupFailed)
        },
        call_ensures(
            Pallet::parse_nft_owner,
            (owner, new_owner, collection, item, account),
            r,
        ) ==> {
            &&& r is Ok <==> account is Some
            &&& r matches Ok(done) ==> done.dispatch.origin == Caller::Signed(account->0)
                && done.dispatch.call == (NftsCall::Transfer { collection, item, dest: new_owner })
                && done.attempt == (Attempt::Transfer { collection, item, owner })
            &&& r matches Err(failure) ==> failure == Failure::Module(Error::AccountLookupFailed)
        },
{
}

/// Of an attempt only a failure is told.
pub proof fn law_what_ending_an_attempt_promises<'a>(
    attempt: Attempt<'a>,
    outcome: Result<(), DispatchError>,
    r: Option<Event<'a>>,
)
    requires
        call_ensures(Attempt::finished, (attempt, outcome), r),
    ensures
        r is Some <==> outcome is Err,
        outcome matches Err(error) ==> r == Some(attempt.failed_event(error)),
{
}

/// An item is taken exactly where its collection exists and belongs to the account to which the
/// sender's address resolves, and the item is neither there nor known as received. It comes back where
/// it was made here and sent, and is minted for its receiver otherwise; its metadata is set where it
/// brings any, and always where it comes back.
pub proof fn law_what_taking_an_item_promises<'a>(
    pallet: Pallet,
    owner: Address<'a>,
    collection: CollectionId,
    item: ItemId,
    data: &'a [u8],
    mint_to: Address<'a>,
    origin_collection: CollectionId,
    origin_item: ItemId,
    origin_chain: ParachainID,
    collection_owner: Option<AccountId>,
    item_exists: bool,
    account: Option<AccountId>,
    r: Result<NftArrival<'a>, Failure>,
)
    requires
        call_ensures(
            Pallet::parse_nft_transfer,
            (
                &pallet,
                owner,
                collection,
                item,
                data,
                mint_to,
                origin_collection,
                origin_item,
                origin_chain,
                collection_owner,
                item_exists,
                account,
            ),
            r,
        ),
    ensures
        ({
            let asset = AssetKey { collection, item };
            let arriving = IncomingNft {
                owner,
                asset,
                data,
                mint_to,
                origin: AssetKey { collection: origin_collection, item: origin_item },
                origin_chain,
            };
            let set = Dispatch {
                origin: Caller::Signed(account->0),
                call: NftsCall::SetMetadata { collection, item, data },
            };
            &&& r is Ok <==> {
                &&& collection_owner is Some
                &&& !item_exists
                &&& !pallet@.received_assets.contains_key(asset)
                &&& account is Some
                &&& collection_owner->0 == account->0
            }
            &&& r is Ok ==> (r->Ok_0 is Returned <==> pallet@.sent_assets.contains_key(asset)
                && pallet@.sent_assets[asset].origin_para_id == pallet@.config.parachain_id)
            &&& r matches Ok(NftArrival::Returned { set_metadata, incoming }) ==> incoming
                == arriving && set_metadata.dispatch == set
            &&& r matches Ok(NftArrival::New { mint, set_metadata, incoming }) ==> {
                &&& incoming == arriving
                &&& mint.dispatch.origin == Caller::Signed(account->0)
                &&& mint.dispatch.call == (NftsCall::Mint { collection, item, mint_to })
                &&& set_metadata is Some <==> data@.len() > 0
                &&& set_metadata matches Some(attempted) ==> attempted.dispatch == set
            }
        }),
{
    law_which_items_are_taken(
        pallet@,
        AssetKey { collection, item },
        collection_owner,
        item_exists,
        account,
    );
}

/// An item that came back is no longer known as sent, and that is told last, after a failure to set
/// its metadata. Where its receiver is not known, nothing changes.
pub proof fn law_what_an_item_that_comes_back_promises<'a>(
    pallet: &mut Pallet,
    incoming: IncomingNft<'a>,
    metadata_set: Result<(), DispatchError>,
    receiver: Option<AccountId>,
    r: Result<Vec<Event<'a>>, Failure>,
)
    requires
        call_ensures(
            Pallet::parse_nft_transfer_returned,
            (pallet, incoming, metadata_set, receiver),
            r,
        ),
    ensures
        r is Ok <==> receiver is Some,
        r matches Err(failure) ==> failure == Failure::CannotLookup,
        r is Err ==> final(pallet)@ == old(pallet)@,
        r matches Ok(told) ==> {
            &&& final(pallet)@ == (Storage {
                sent_assets: old(pallet)@.sent_assets.remove(incoming.origin),
                ..old(pallet)@
            })
            &&& told@.len() == if metadata_set is Err {
                2int
            } else {
                1
            }
            &&& told@.last() == (Event::NFTReturnedToOrigin {
                origin_collection_id: incoming.origin.collection,
                origin_asset_id: incoming.origin.item,
                returned_from_collection_id: incoming.asset.collection,
                returned_from_asset_id: incoming.asset.item,
                to_address: receiver->0,
            })
            &&& metadata_set matches Err(error) ==> told@[0] == (Event::NFTMetadataSetFailed {
                error,
                collection_id: incoming.asset.collection,
                asset_id: incoming.asset.item,
                owner: incoming.owner,
            })
        },
{
}

/// An item that then exists has arrived: it is known as received, with where it came from, and not as
/// sent, and that is told last. Where it does not exist, nothing changes.
pub proof fn law_what_an_item_that_arrives_promises<'a>(
    pallet: &mut Pallet,
    incoming: IncomingNft<'a>,
    minted: Result<(), DispatchError>,
    metadata_set: Result<(), DispatchError>,
    item_exists: bool,
    r: Result<Vec<Event<'a>>, Failure>,
)
    requires
        call_ensures(
            Pallet::parse_nft_transfer_minted,
            (pallet, incoming, minted, metadata_set, item_exists),
            r,
        ),
    ensures
        r is Ok <==> item_exists,
        r matches Err(failure) ==> failure == Failure::Module(Error::NFTDoesNotExist),
        r is Err ==> final(pallet)@ == old(pallet)@,
        r matches Ok(told) ==> {
            let record = final(pallet)@.received_assets[incoming.asset];
            &&& final(pallet)@ == (Storage {
                sent_assets: old(pallet)@.sent_assets.remove(incoming.asset),
                received_assets: old(pallet)@.received_assets.insert(incoming.asset, record),
                ..old(pallet)@
            })
            &&& record.origin_para_id == incoming.origin_chain
            &&& record.origin_collection_id == incoming.origin.collection
            &&& record.origin_asset_id == incoming.origin.item
            &&& told@.len() >= 1
            &&& told@.last() == (Event::NFTReceived {
                origin_collection_id: incoming.origin.collection,
                origin_asset_id: incoming.origin.item,
                received_collection_id: incoming.asset.collection,
                received_asset_id: incoming.asset.item,
                to_address: incoming.mint_to,
            })
            &&& minted is Ok && metadata_set is Ok ==> told@.len() == 1
        },
{
}

/// A collection with items is created by the account to which its owner's address resolves, and is
/// looked for from the next identifier on, or from the very first.
pub proof fn law_what_taking_a_collection_promises<'a>(
    owner: Address<'a>,
    config: CollectionConfigFor,
    account: Option<AccountId>,
    next: Option<CollectionId>,
    r: Result<(Dispatch<'a>, AccountId, CollectionId), Failure>,
)
    requires
        call_ensures(Pallet::parse_collection_same_owner, (owner, config, account, next), r)
            || call_ensures(
            Pallet::parse_collection_multiple_owners,
            (owner, config, account, next),
            r,
        ),
    ensures
        r is Ok <==> account is Some,
        r matches Err(failure) ==> failure == Failure::CannotLookup,
        r matches Ok((create, who, first)) ==> {
            &&& create.origin == Caller::Signed(account->0)
            &&& create.call == (NftsCall::Create { admin: owner, config })
            &&& who == account->0
            &&& next is Some ==> first == next->0
            &&& next is None ==> first == 0
        },
{
}

/// A collection that could not be created is refused with what stopped it; one that was created goes
/// on with all its items still to come, and its metadata set where it brings any.
pub proof fn law_what_a_created_collection_promises<'a>(
    incoming: IncomingCollection<'a>,
    who: AccountId,
    first: CollectionId,
    created: Result<(), DispatchError>,
    owners: &[AccountId],
    next: Option<CollectionId>,
    r: Result<(Option<Attempted<'a>>, CollectionArrival<'a>), Failure>,
)
    requires
        call_ensures(
            Pallet::parse_collection_created,
            (incoming, who, first, created, owners, next),
            r,
        ),
    ensures
        r is Ok <==> created is Ok && (owners@[0] == who || next is Some),
        created matches Err(error) ==> (r matches Err(failure) && failure == Failure::Nfts(error)),
        created is Ok && r is Err ==> r->Err_0 == Failure::Module(Error::NoNextCollectionId),
        r matches Ok((set_metadata, arrival)) ==> {
            &&& arrival.who == who
            &&& arrival.incoming == incoming
            &&& arrival.minted == 0
            &&& owners@[0] == who ==> arrival.collection == first
            &&& set_metadata is Some <==> incoming.collection_metadata@.len() > 0
            &&& set_metadata matches Some(attempted) ==> attempted.dispatch == (Dispatch {
                origin: Caller::Signed(who),
                call: NftsCall::SetCollectionMetadata {
                    collection: arrival.collection,
                    data: incoming.collection_metadata,
                },
            })
        },
{
}

/// The items of a collection are minted one by one, by its owner, each for its receiver and with its
/// metadata where it brings any. Once all have been, and not before, the collection is known as
/// received, and that is told with all its items.
pub proof fn law_what_the_next_step_promises<'a>(
    pallet: &mut Pallet,
    arrival: CollectionArrival<'a>,
    r: ArrivalStep<'a>,
)
    requires
        call_ensures(Pallet::parse_collection_next, (pallet, arrival), r),
    ensures
        ({
            let entries = arrival.incoming.entries();
            let entry = entries[arrival.minted as int];
            &&& r is Mint <==> arrival.minted < entries.len()
            &&& r matches ArrivalStep::Mint { mint, set_metadata } ==> {
                &&& final(pallet)@ == old(pallet)@
                &&& mint.dispatch == (Dispatch {
                    origin: Caller::Signed(arrival.who),
                    call: NftsCall::Mint {
                        collection: arrival.collection,
                        item: entry.0,
                        mint_to: entry.1,
                    },
                })
                &&& set_metadata is Some <==> entry.2@.len() > 0
                &&& set_metadata matches Some(attempted) ==> attempted.dispatch == (Dispatch {
                    origin: Caller::Signed(arrival.who),
                    call: NftsCall::SetMetadata {
                        collection: arrival.collection,
                        item: entry.0,
                        data: entry.2,
                    },
                })
            }
            &&& r matches ArrivalStep::Done(event) ==> {
                let record = final(pallet)@.received_collections[arrival.collection];
                &&& final(pallet)@ == (Storage {
                    received_collections: old(pallet)@.received_collections.insert(
                        arrival.collection,
                        record,
                    ),
                    ..old(pallet)@
                })
                &&& record.origin_para_id == arrival.incoming.origin_para
                &&& record.origin_collection_id == arrival.incoming.origin_collection_id
                &&& record.received_collection_id == arrival.collection
                &&& event matches Event::CollectionWithNftsReceived { collection_id, items }
                &&& collection_id == arrival.collection
                &&& items@.len() == entries.len()
                &&& forall|i: int|
                    0 <= i < items@.len() ==> (#[trigger] items@[i]).0 == entries[i].0
                        && items@[i].1 == entries[i].2
            }
        }),
{
}

/// After each item that then exists the next one comes; a collection of which an item does not is
/// refused.
pub proof fn law_what_a_minted_item_promises<'a>(
    arrival: CollectionArrival<'a>,
    minted: Result<(), DispatchError>,
    metadata_set: Result<(), DispatchError>,
    item_exists: bool,
    r: Result<(Vec<Event<'a>>, CollectionArrival<'a>), Failure>,
)
    requires
        arrival.minted < arrival.incoming.entries().len(),
        arrival.minted < usize::MAX,
        call_ensures(
            CollectionArrival::item_minted,
            (arrival, minted, metadata_set, item_exists),
            r,
        ),
    ensures
        r is Ok <==> item_exists,
        r matches Err(failure) ==> failure == Failure::Module(Error::NFTDoesNotExist),
        r matches Ok((told, next)) ==> {
            &&& next.minted == arrival.minted + 1
            &&& next.who == arrival.who
            &&& next.incoming == arrival.incoming
            &&& next.collection == arrival.collection
            &&& minted is Ok && metadata_set is Ok ==> told@.len() == 0
        },
{
}

} // verus!
