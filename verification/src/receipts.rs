//! What is remembered and told of what other chains send and ask for.
use pallet_nfts::DestroyWitness;
use sp_runtime::DispatchError;
use staging_xcm::latest::SendError;
use vstd::prelude::*;

use crate::arrival::{
    collection_of, metadata_attempt, mint_attempt, mint_reports, with_metadata, CollectionArrival,
    IncomingCollection, IncomingItems, IncomingNft,
};
use crate::message::{Call, Caller, NftsCall, RemoteCall};
use crate::pallet::Storage;
use crate::receive::{as_resolved, Attempt};
use crate::remote::{Change, Request};
use crate::types::{
    AccountId, Address, AssetKey, CollectionId, Error, Event, Failure, ItemId,
    ParachainID,
};

verus! {

/// An item comes back, rather than arriving as a new one, exactly where it is remembered as sent and
/// was made on this chain.
pub proof fn law_which_items_come_back(storage: Storage, asset: AssetKey)
    ensures
        storage.is_away(asset) <==> storage.sent_assets.contains_key(asset)
            && storage.sent_assets[asset].origin_para_id == storage.config.parachain_id,
{
}

/// An item that came back is no longer remembered as sent; nothing else is forgotten.
pub proof fn law_what_is_forgotten_of_an_item_that_came_back(storage: Storage, asset: AssetKey)
    ensures
        storage.without_sent_asset(asset) == (Storage {
            sent_assets: storage.sent_assets.remove(asset),
            ..storage
        }),
{
}

/// An item that arrived is remembered as received, and no longer as sent: with the chain, the
/// collection and the identifier from which it came, and with its place here. No other record changes.
pub proof fn law_what_is_remembered_of_an_item_that_arrived(
    storage: Storage,
    incoming: IncomingNft,
)
    ensures
        ({
            let after = storage.with_received_asset(incoming);
            let received = after.received_assets[incoming.asset];
            &&& received.origin_para_id == incoming.origin_chain
            &&& received.origin_collection_id == incoming.origin.collection
            &&& received.origin_asset_id == incoming.origin.item
            &&& received.received_collection_id == incoming.asset.collection
            &&& received.received_asset_id == incoming.asset.item
            &&& after.received_assets == storage.received_assets.insert(incoming.asset, received)
            &&& after.sent_assets == storage.sent_assets.remove(incoming.asset)
            &&& after == (Storage {
                sent_assets: after.sent_assets,
                received_assets: after.received_assets,
                ..storage
            })
        }),
{
}

/// A collection that arrived is remembered with the chain and the identifier from which it came, and
/// with its identifier here. No other record changes.
pub proof fn law_what_is_remembered_of_a_collection_that_arrived(
    storage: Storage,
    collection: CollectionId,
    origin_para: ParachainID,
    origin_collection_id: CollectionId,
)
    ensures
        ({
            let after = storage.with_received_collection(
                collection,
                origin_para,
                origin_collection_id,
            );
            let received = after.received_collections[collection];
            &&& received.origin_para_id == origin_para
            &&& received.origin_collection_id == origin_collection_id
            &&& received.received_collection_id == collection
            &&& after.received_collections == storage.received_collections.insert(
                collection,
                received,
            )
            &&& after == (Storage { received_collections: after.received_collections, ..storage })
        }),
{
}

/// An item is minted by the account that is given, at the place and for the receiver that are given,
/// and a failure is told of that item to its sender.
pub proof fn law_how_an_item_is_minted<'a>(
    who: AccountId,
    asset: AssetKey,
    mint_to: Address<'a>,
    owner: Address<'a>,
)
    ensures
        ({
            let mint = mint_attempt(who, asset, mint_to, owner);
            &&& mint.dispatch.origin == Caller::Signed(who)
            &&& mint.dispatch.call == (NftsCall::Mint {
                collection: asset.collection,
                item: asset.item,
                mint_to,
            })
            &&& mint.attempt == (Attempt::Mint {
                collection: asset.collection,
                item: asset.item,
                owner,
            })
        }),
{
}

/// An item's metadata is set by the account that is given, to the data that is given, and a failure is
/// told of that item to its sender.
pub proof fn law_how_metadata_is_set<'a>(
    who: AccountId,
    asset: AssetKey,
    data: &'a [u8],
    owner: Address<'a>,
)
    ensures
        ({
            let set = metadata_attempt(who, asset, data, owner);
            &&& set.dispatch.origin == Caller::Signed(who)
            &&& set.dispatch.call == (NftsCall::SetMetadata {
                collection: asset.collection,
                item: asset.item,
                data,
            })
            &&& set.attempt == (Attempt::SetMetadata {
                collection: asset.collection,
                item: asset.item,
                owner,
            })
        }),
{
}

/// Of an item that was to be minted, each failure is told once, that of the minting first; a failure
/// to set metadata is told only where there is any. Nothing is told of a success.
pub proof fn law_what_is_told_of_a_minting<'a>(
    asset: AssetKey,
    owner: Address<'a>,
    data: Seq<u8>,
    minted: Result<(), DispatchError>,
    metadata_set: Result<(), DispatchError>,
)
    ensures
        ({
            let told = mint_reports(asset, owner, data, minted, metadata_set);
            let of_mint = if minted is Err {
                1int
            } else {
                0
            };
            let of_metadata = if metadata_set is Err && data.len() > 0 {
                1int
            } else {
                0
            };
            &&& told.len() == of_mint + of_metadata
            &&& of_mint == 1 ==> told[0] == (Event::NFTMintFailed {
                error: minted->Err_0,
                collection_id: asset.collection,
                asset_id: asset.item,
                owner,
            })
            &&& of_metadata == 1 ==> told[of_mint] == (Event::NFTMetadataSetFailed {
                error: metadata_set->Err_0,
                collection_id: asset.collection,
                asset_id: asset.item,
                owner,
            })
        }),
{
}

/// A collection of one owner brings every item that was sent, in order and with its metadata, for
/// that owner.
pub proof fn law_what_a_collection_of_one_owner_brings<'a>(
    incoming: IncomingCollection<'a>,
    nfts: &'a [(ItemId, &'a [u8])],
)
    requires
        incoming.nfts == IncomingItems::SameOwner(nfts),
    ensures
        incoming.entries().len() == nfts@.len(),
        forall|i: int|
            0 <= i < nfts@.len() ==> {
                let entry = #[trigger] incoming.entries()[i];
                entry.0 == nfts@[i].0 && entry.1 == incoming.owner && entry.2 == nfts@[i].1
            },
{
}

/// A collection of several owners brings every item that was sent, in order and with its metadata,
/// each for its owner.
pub proof fn law_what_a_collection_of_several_owners_brings<'a>(
    incoming: IncomingCollection<'a>,
    nfts: &'a [(ItemId, Address<'a>, &'a [u8])],
)
    requires
        incoming.nfts == IncomingItems::MultipleOwners(nfts),
    ensures
        incoming.entries().len() == nfts@.len(),
        forall|i: int| 0 <= i < nfts@.len() ==> #[trigger] incoming.entries()[i] == nfts@[i],
{
}

/// The items of a collection are told in order, each with its metadata.
pub proof fn law_which_items_are_told<'a>(entries: Seq<(ItemId, Address<'a>, &'a [u8])>)
    ensures
        with_metadata(entries).len() == entries.len(),
        forall|i: int|
            0 <= i < entries.len() ==> {
                let told = #[trigger] with_metadata(entries)[i];
                told.0 == entries[i].0 && told.1 == entries[i].2
            },
{
}

/// The items of a collection are minted in order, none left out and none twice: what comes next is the
/// item whose number is that of the items that have been minted.
pub proof fn law_which_item_comes_next<'a>(arrival: CollectionArrival<'a>)
    ensures
        ({
            let entry = arrival.incoming.entries()[arrival.minted as int];
            &&& arrival.next_asset().collection == arrival.collection
            &&& arrival.next_asset().item == entry.0
            &&& arrival.next_receiver() == entry.1
            &&& arrival.next_data() == entry.2
        }),
{
}

/// The collection that was made for an account is the first of the account's among those that exist:
/// with an identifier from `first` on and below the next one that will be given. Where the first
/// collection that is the account's is beyond these, it is taken to be `first`.
pub proof fn law_which_collection_was_made(
    owners: Seq<AccountId>,
    first: CollectionId,
    next: CollectionId,
    who: AccountId,
    j: int,
)
    requires
        0 <= j < owners.len(),
        first + owners.len() <= 0x1_0000_0000,
        owners[j] == who,
        forall|i: int| 0 <= i < j ==> #[trigger] owners[i] != who,
    ensures
        collection_of(owners, first, Some(next), who) == if j == 0 || first + j < next || next
            < first {
            first + j
        } else {
            first as int
        },
{
    let searched = if first <= next && next - first <= owners.len() {
        next - first
    } else {
        owners.len() as int
    };
    let candidates = owners.take(searched);
    candidates.index_of_first_ensures(who);
    if j < searched {
        assert(candidates[j] == who);
        let found = candidates.index_of_first(who)->0;
        assert(owners[found] == candidates[found]);
    } else if candidates.contains(who) {
        let i = choose|i: int| 0 <= i < candidates.len() && candidates[i] == who;
        assert(owners[i] == who);
    }
}

/// Where no collection that was looked at is the account's, the one that was made is taken to be the
/// first.
pub proof fn law_which_collection_is_taken_where_none_is_found(
    owners: Seq<AccountId>,
    first: CollectionId,
    next: CollectionId,
    who: AccountId,
)
    requires
        owners.len() > 0,
        !owners.contains(who),
    ensures
        collection_of(owners, first, Some(next), who) == first,
{
    let searched = if first <= next && next - first <= owners.len() {
        next - first
    } else {
        owners.len() as int
    };
    let candidates = owners.take(searched);
    if candidates.contains(who) {
        let i = choose|i: int| 0 <= i < candidates.len() && candidates[i] == who;
        assert(owners[i] == who);
    }
}

/// Nothing is told of what worked, and of what failed the error, what was attempted, on what, and who
/// asked for it.
pub proof fn law_what_is_told_of_a_failure<'a>(
    attempt: Attempt<'a>,
    error: DispatchError,
)
    ensures
        attempt.report(Ok(())) is None,
        attempt.report(Err(error)) == Some(attempt.failed_event(error)),
        attempt matches Attempt::SetCollectionMetadata { collection, owner }
            ==> attempt.failed_event(error) == (Event::CollectionMetadataSetFailed {
            error,
            collection_id: collection,
            owner,
        }),
        attempt matches Attempt::TransferCollection { collection, owner } ==> attempt.failed_event(
            error,
        ) == (Event::CollectionOwnershipTransferFailed {
            error,
            collection_id: collection,
            owner,
        }),
        attempt matches Attempt::Mint { collection, item, owner } ==> attempt.failed_event(error)
            == (Event::NFTMintFailed { error, collection_id: collection, asset_id: item, owner }),
        attempt matches Attempt::Burn { collection, item, owner } ==> attempt.failed_event(error)
            == (Event::NFTBurnFailed { error, collection_id: collection, asset_id: item, owner }),
        attempt matches Attempt::SetMetadata { collection, item, owner } ==> attempt.failed_event(
            error,
        ) == (Event::NFTMetadataSetFailed {
            error,
            collection_id: collection,
            asset_id: item,
            owner,
        }),
        attempt matches Attempt::Transfer { collection, item, owner } ==> attempt.failed_event(
            error,
        ) == (Event::NFTOwnershipTransferFailed {
            error,
            collection_id: collection,
            asset_id: item,
            owner,
        }),
{
}

/// What another chain asks for is done as the account to which its sender's address resolves, and
/// refused where it resolves to none.
pub proof fn law_as_whom_it_is_done<'a>(
    account: Option<AccountId>,
    call: NftsCall<'a>,
    attempt: Attempt<'a>,
)
    ensures
        ({
            let done = as_resolved(account, call, attempt);
            &&& done is Ok <==> account is Some
            &&& done is Ok ==> done->Ok_0.dispatch.origin == Caller::Signed(account->0)
                && done->Ok_0.dispatch.call == call && done->Ok_0.attempt == attempt
            &&& done is Err ==> done->Err_0 == Failure::Module(Error::AccountLookupFailed)
        }),
{
}

/// A request is one message to the chain that is asked, and carries what the change takes there.
pub proof fn law_what_a_request_carries<'a>(
    request: Request<'a>,
    destination: ParachainID,
    change: Change<'a>,
)
    requires
        request.asks(destination, change),
    ensures
        request.message.parents == 1,
        request.message.parachain == destination,
        request.message.transact.call == change.remote_call(),
        request.destination == destination,
        request.change == change,
{
}

/// The metadata of a collection elsewhere is changed to the data that was given, for who asked, and
/// that is what is told.
pub proof fn law_collection_metadata_is_changed_as_asked<'a>(
    collection_id: CollectionId,
    data: &'a [u8],
    owner: AccountId,
    destination: ParachainID,
    e: SendError,
)
    ensures
        ({
            let change = Change::CollectionMetadata { collection_id, data, owner };
            &&& change.remote_call() == RemoteCall::XcNft(
                Call::ParseCollectionMetadata {
                    owner: Address::Account(owner),
                    collection: collection_id,
                    data,
                },
            )
            &&& change.sent_event(destination) == (Event::ColMetadataSent {
                collection_id,
                proposed_data: data,
                owner,
                destination,
            })
            &&& change.failed_event(destination, e) == (Event::ColMetadataFailedToXCM {
                e,
                collection_id,
                proposed_data: data,
                owner,
                destination,
            })
        }),
{
}

/// The metadata of an item elsewhere is changed to the data that was given, for who asked, and that is
/// what is told.
pub proof fn law_item_metadata_is_changed_as_asked<'a>(
    collection_id: CollectionId,
    asset_id: ItemId,
    data: &'a [u8],
    owner: AccountId,
    destination: ParachainID,
    e: SendError,
)
    ensures
        ({
            let change = Change::NftMetadata { collection_id, asset_id, data, owner };
            &&& change.remote_call() == RemoteCall::XcNft(
                Call::ParseNftMetadata {
                    owner: Address::Account(owner),
                    collection: collection_id,
                    item: asset_id,
                    data,
                },
            )
            &&& change.sent_event(destination) == (Event::NFTMetadataSent {
                collection_id,
                asset_id,
                proposed_data: data,
                owner,
                destination,
            })
            &&& change.failed_event(destination, e) == (Event::NFTMetadataFailedToXCM {
                e,
                collection_id,
                asset_id,
                proposed_data: data,
                owner,
                destination,
            })
        }),
{
}

/// A collection elsewhere is burned for who asked, with the witness that was given, and that is what
/// is told.
pub proof fn law_collection_is_burned_as_asked<'a>(
    collection_id: CollectionId,
    burn_data: DestroyWitness,
    owner: AccountId,
    destination: ParachainID,
    e: SendError,
)
    ensures
        ({
            let change = Change::CollectionBurn::<'a> { collection_id, burn_data, owner };
            &&& change.remote_call() == RemoteCall::XcNft(
                Call::ParseCollectionBurn {
                    owner: Address::Account(owner),
                    collection_to_burn: collection_id,
                    witness_data: burn_data,
                },
            )
            &&& change.sent_event(destination) == (Event::ColBurnSent {
                collection_id,
                burn_data,
                owner,
                destination,
            })
            &&& change.failed_event(destination, e) == (Event::ColBurnFailedToXCM {
                e,
                collection_id,
                burn_data,
                owner,
                destination,
            })
        }),
{
}

/// An item elsewhere is burned for who asked, and that is what is told.
pub proof fn law_item_is_burned_as_asked<'a>(
    collection_id: CollectionId,
    asset_id: ItemId,
    owner: AccountId,
    destination: ParachainID,
    e: SendError,
)
    ensures
        ({
            let change = Change::NftBurn::<'a> { collection_id, asset_id, owner };
            &&& change.remote_call() == RemoteCall::XcNft(
                Call::ParseNftBurn {
                    owner: Address::Account(owner),
                    collection: collection_id,
                    item: asset_id,
                },
            )
            &&& change.sent_event(destination) == (Event::NFTBurnSent {
                collection_id,
                asset_id,
                owner,
                destination,
            })
            &&& change.failed_event(destination, e) == (Event::NFTBurnFailedToXCM {
                e,
                collection_id,
                asset_id,
                owner,
                destination,
            })
        }),
{
}

/// A collection elsewhere is given to the owner that was named, and that is what is told.
pub proof fn law_collection_is_given_as_asked<'a>(
    collection_id: CollectionId,
    new_owner: Address<'a>,
    destination: ParachainID,
    e: SendError,
)
    ensures
        ({
            let change = Change::CollectionOwner { collection_id, new_owner };
            &&& change.remote_call() == RemoteCall::Nfts(
                NftsCall::TransferOwnership { collection: collection_id, new_owner },
            )
            &&& change.sent_event(destination) == (Event::ColOwnershipSent {
                collection_id,
                proposed_owner: new_owner,
                destination,
            })
            &&& change.failed_event(destination, e) == (Event::ColOwnershipFailedToXCM {
                e,
                collection_id,
                proposed_owner: new_owner,
                destination,
            })
        }),
{
}

/// An item elsewhere is given to the owner that was named, for who asked, and that is what is told.
pub proof fn law_item_is_given_as_asked<'a>(
    collection_id: CollectionId,
    asset_id: ItemId,
    new_owner: Address<'a>,
    owner: AccountId,
    destination: ParachainID,
    e: SendError,
)
    ensures
        ({
            let change = Change::NftOwner { collection_id, asset_id, new_owner, owner };
            &&& change.remote_call() == RemoteCall::XcNft(
                Call::ParseNftOwner {
                    owner: Address::Account(owner),
                    new_owner,
                    collection: collection_id,
                    item: asset_id,
                },
            )
            &&& change.sent_event(destination) == (Event::NFTOwnershipSent {
                collection_id,
                asset_id,
                proposed_owner: new_owner,
                destination,
            })
            &&& change.failed_event(destination, e) == (Event::NFTOwnershipFailedToXCM {
                e,
                collection_id,
                asset_id,
                proposed_owner: new_owner,
                destination,
            })
        }),
{
}

} // verus!
