//! What holds between the chain that sends and the chain that receives.
use vstd::prelude::*;

use crate::arrival::{
    arrival_failure, CollectionArrival, IncomingCollection, IncomingItems, IncomingNft,
};
use crate::message::{Call, Caller, Dispatch, Effect, NftsCall, RemoteCall};
use crate::nft::{claim_failure, is_nft_transfer_call, sent_item_effects};
use crate::pallet::{bytes_or_none, Storage};
use crate::proposal::{is_multiple_owners_call, item_removals, items_removals};
use crate::receive::{as_resolved, Attempt};
use crate::remote::Change;
use crate::transfer::{collection_removals, is_same_owner_call, item_burns, item_ids};
use crate::types::{
    AccountId, Address, AssetKey, Balance, CollectionConfigFor, CollectionId, CollectionState,
    Error, Failure, ItemId, ItemState, Origin, ParachainID, ProposalView, ReceivedCols,
    ReceivedStruct,
};

verus! {

/// An asset that moves on is remembered with the place where it came from, one that was made here
/// with its place here. Either way it is no longer known as received.
pub proof fn law_sent_asset_keeps_its_origin(
    storage: Storage,
    asset: AssetKey,
    destination: AssetKey,
)
    ensures
        ({
            let after = storage.with_asset_sent(asset, destination);
            let sent = after.sent_assets[asset];
            &&& after.sent_assets.contains_key(asset)
            &&& !after.received_assets.contains_key(asset)
            &&& sent.destination_collection_id == destination.collection
            &&& sent.destination_asset_id == destination.item
            &&& storage.received_assets.contains_key(asset) ==> {
                &&& sent.origin_para_id == storage.received_assets[asset].origin_para_id
                &&& sent.origin_collection_id
                    == storage.received_assets[asset].origin_collection_id
                &&& sent.origin_asset_id == storage.received_assets[asset].origin_asset_id
            }
            &&& !storage.received_assets.contains_key(asset) ==> {
                &&& sent.origin_para_id == storage.config.parachain_id
                &&& sent.origin_collection_id == asset.collection
                &&& sent.origin_asset_id == asset.item
                &&& after.is_away(asset)
            }
        }),
{
}

/// The item that the receiver of a call is to take.
pub open spec fn item_in(call: RemoteCall) -> Option<IncomingNft> {
    match call {
        RemoteCall::XcNft(
            Call::ParseNftTransfer {
                owner,
                collection,
                item,
                data,
                mint_to,
                origin_collection,
                origin_item,
                origin_chain,
            },
        ) => Some(
            IncomingNft {
                owner,
                asset: AssetKey { collection, item },
                data,
                mint_to,
                origin: AssetKey { collection: origin_collection, item: origin_item },
                origin_chain,
            },
        ),
        _ => None,
    }
}

/// An item arrives as it was sent: where the sender wanted it, for whom the sender wanted it, with
/// its metadata, and remembered with the sender's chain and its place there.
pub proof fn law_item_arrives_as_sent(
    call: RemoteCall,
    who: AccountId,
    sent: AssetKey,
    destination: AssetKey,
    metadata: Option<&[u8]>,
    destination_account: Address,
    chain: ParachainID,
    receiver: Storage,
)
    requires
        is_nft_transfer_call(call, who, sent, destination, metadata, destination_account, chain),
    ensures
        item_in(call) matches Some(incoming) && {
            let after = receiver.with_received_asset(incoming);
            &&& incoming.owner == Address::Account(who)
            &&& incoming.asset == destination
            &&& incoming.mint_to == destination_account
            &&& incoming.data@ == bytes_or_none(metadata)
            &&& after.received_assets.contains_key(destination)
            &&& after.received_assets[destination] == (ReceivedStruct {
                origin_para_id: chain,
                origin_collection_id: sent.collection,
                origin_asset_id: sent.item,
                received_collection_id: destination.collection,
                received_asset_id: destination.item,
            })
        },
{
}

/// The assets that are minted for a collection from here on, in order and each with who gets it, as
/// long as every one of them then exists.
pub open spec fn mints_from(arrival: CollectionArrival) -> Seq<(AssetKey, Address)>
    decreases arrival.incoming.entries().len() - arrival.minted,
{
    if arrival.minted < arrival.incoming.entries().len() && arrival.minted < usize::MAX {
        seq![(arrival.next_asset(), arrival.next_receiver())] + mints_from(
            CollectionArrival { minted: (arrival.minted + 1) as usize, ..arrival },
        )
    } else {
        Seq::empty()
    }
}

/// Items, each under the identifier that their collection has here, with who is to get them.
pub open spec fn assets_brought<'a>(
    collection: CollectionId,
    entries: Seq<(ItemId, Address<'a>, &'a [u8])>,
) -> Seq<(AssetKey, Address<'a>)> {
    entries.map_values(
        |entry: (ItemId, Address<'a>, &'a [u8])|
            (AssetKey { collection, item: entry.0 }, entry.1),
    )
}

/// From any point on, the items that remain are minted, in order, each once and for who is to get it.
pub proof fn law_remaining_items_are_minted(arrival: CollectionArrival)
    requires
        arrival.minted <= arrival.incoming.entries().len(),
        arrival.incoming.entries().len() <= usize::MAX,
    ensures
        mints_from(arrival) == assets_brought(
            arrival.collection,
            arrival.incoming.entries().skip(arrival.minted as int),
        ),
    decreases arrival.incoming.entries().len() - arrival.minted,
{
    let entries = arrival.incoming.entries();
    if arrival.minted < entries.len() {
        let next = CollectionArrival { minted: (arrival.minted + 1) as usize, ..arrival };
        law_remaining_items_are_minted(next);
        assert(entries.skip(arrival.minted as int) =~= seq![entries[arrival.minted as int]]
            + entries.skip(arrival.minted + 1));
    }
    assert(mints_from(arrival) =~= assets_brought(
        arrival.collection,
        entries.skip(arrival.minted as int),
    ));
}

/// Whether a collection on its way in is the one that a call brings.
pub open spec fn is_brought_by(incoming: IncomingCollection, call: RemoteCall) -> bool {
    match call {
        RemoteCall::XcNft(
            Call::ParseCollectionSameOwner {
                owner,
                config: _,
                collection_metadata,
                nfts,
                origin_para,
                origin_collection_id,
            },
        ) => {
            &&& incoming.owner == owner
            &&& incoming.collection_metadata == collection_metadata
            &&& incoming.nfts matches IncomingItems::SameOwner(brought)
            &&& brought@ == nfts@
            &&& incoming.origin_para == origin_para
            &&& incoming.origin_collection_id == origin_collection_id
        },
        RemoteCall::XcNft(
            Call::ParseCollectionMultipleOwners {
                owner,
                config: _,
                collection_metadata,
                nfts,
                origin_para,
                origin_collection_id,
            },
        ) => {
            &&& incoming.owner == owner
            &&& incoming.collection_metadata == collection_metadata
            &&& incoming.nfts matches IncomingItems::MultipleOwners(brought)
            &&& brought@ == nfts@
            &&& incoming.origin_para == origin_para
            &&& incoming.origin_collection_id == origin_collection_id
        },
        _ => false,
    }
}

/// Whether `storage` remembers a collection as the one that had `origin_collection` on `chain`.
pub open spec fn remembers_origin(
    storage: Storage,
    collection: CollectionId,
    chain: ParachainID,
    origin_collection: CollectionId,
) -> bool {
    &&& storage.received_collections.contains_key(collection)
    &&& storage.received_collections[collection] == (ReceivedCols {
        origin_para_id: chain,
        origin_collection_id: origin_collection,
        received_collection_id: collection,
    })
}

/// A collection arrives with the items that it was sent with: all of them are minted for the
/// receiver, in the sender's order and under the sender's identifiers, each with its metadata, and
/// the collection is remembered with the sender's chain and its identifier there.
pub proof fn law_collection_arrives_as_sent(
    call: RemoteCall,
    origin_collection: CollectionId,
    state: CollectionState,
    destination_account: Address,
    config: CollectionConfigFor,
    chain: ParachainID,
    arrival: CollectionArrival,
    receiver: Storage,
)
    requires
        is_same_owner_call(
            call,
            origin_collection,
            state,
            destination_account,
            config,
            chain,
        ),
        is_brought_by(arrival.incoming, call),
        arrival.minted == 0,
    ensures
        arrival.incoming.owner == destination_account,
        arrival.incoming.collection_metadata@ == bytes_or_none(state.metadata),
        mints_from(arrival).len() == state.items@.len(),
        forall|i: int|
            0 <= i < state.items@.len() ==> #[trigger] mints_from(arrival)[i] == (
                AssetKey { collection: arrival.collection, item: state.items@[i].id },
                destination_account,
            ) && arrival.incoming.entries()[i].2@ == bytes_or_none(state.items@[i].metadata),
        remembers_origin(
            receiver.with_received_collection(
                arrival.collection,
                arrival.incoming.origin_para,
                arrival.incoming.origin_collection_id,
            ),
            arrival.collection,
            chain,
            origin_collection,
        ),
{
    law_remaining_items_are_minted(arrival);
    assert(arrival.incoming.entries().skip(0) =~= arrival.incoming.entries());
}

/// A collection on whose transfer was voted arrives with its items: all of them are minted, in the
/// sender's order and under the sender's identifiers, each for the account that owned it there and
/// with its metadata, and the collection is remembered with the sender's chain and its identifier
/// there.
pub proof fn law_collection_of_several_owners_arrives_as_sent(
    call: RemoteCall,
    proposal: ProposalView,
    state: CollectionState,
    chain: ParachainID,
    arrival: CollectionArrival,
    receiver: Storage,
)
    requires
        is_multiple_owners_call(call, proposal, state, chain),
        is_brought_by(arrival.incoming, call),
        arrival.minted == 0,
    ensures
        arrival.incoming.owner == Address::Account(proposal.proposed_collection_owner),
        arrival.incoming.collection_metadata@ == bytes_or_none(state.metadata),
        mints_from(arrival).len() == state.items@.len(),
        forall|i: int|
            0 <= i < state.items@.len() ==> #[trigger] mints_from(arrival)[i] == (
                AssetKey { collection: arrival.collection, item: state.items@[i].id },
                Address::Account(state.items@[i].owner),
            ) && arrival.incoming.entries()[i].2@ == bytes_or_none(state.items@[i].metadata),
        remembers_origin(
            receiver.with_received_collection(
                arrival.collection,
                arrival.incoming.origin_para,
                arrival.incoming.origin_collection_id,
            ),
            arrival.collection,
            chain,
            proposal.collection_id,
        ),
{
    if let RemoteCall::XcNft(Call::ParseCollectionMultipleOwners { nfts, .. }) = call {
        assert(nfts@.len() == nfts.len());
    }
    law_remaining_items_are_minted(arrival);
    assert(arrival.incoming.entries().skip(0) =~= arrival.incoming.entries());
}

/// The call of the NFT pallet that a call from another chain comes to, made as the account to which
/// the address in it resolves.
pub open spec fn carried_out(call: RemoteCall, account: AccountId) -> Option<Dispatch> {
    match call {
        RemoteCall::XcNft(Call::ParseCollectionMetadata { owner, collection, data }) => Some(
            as_resolved(
                Some(account),
                NftsCall::SetCollectionMetadata { collection, data },
                Attempt::SetCollectionMetadata { collection, owner },
            )->Ok_0.dispatch,
        ),
        RemoteCall::XcNft(Call::ParseNftMetadata { owner, collection, item, data }) => Some(
            as_resolved(
                Some(account),
                NftsCall::SetMetadata { collection, item, data },
                Attempt::SetMetadata { collection, item, owner },
            )->Ok_0.dispatch,
        ),
        RemoteCall::XcNft(Call::ParseNftBurn { owner, collection, item }) => Some(
            as_resolved(
                Some(account),
                NftsCall::Burn { collection, item },
                Attempt::Burn { collection, item, owner },
            )->Ok_0.dispatch,
        ),
        RemoteCall::XcNft(Call::ParseNftOwner { owner, new_owner, collection, item }) => Some(
            as_resolved(
                Some(account),
                NftsCall::Transfer { collection, item, dest: new_owner },
                Attempt::Transfer { collection, item, owner },
            )->Ok_0.dispatch,
        ),
        RemoteCall::XcNft(Call::ParseCollectionBurn { owner: _, collection_to_burn, witness_data })
        => Some(
            Dispatch {
                origin: Caller::Signed(account),
                call: NftsCall::Destroy { collection: collection_to_burn, witness: witness_data },
            },
        ),
        _ => None,
    }
}

/// A change that was asked for is made on the other chain as the account that asked for it, and is
/// the one that was asked for. The owner of a collection is changed by a call of the NFT pallet
/// itself.
pub proof fn law_change_is_made_as_who_asked(change: Change)
    ensures
        match change {
            Change::CollectionMetadata { collection_id, data, owner } => carried_out(
                change.remote_call(),
                owner,
            ) == Some(
                Dispatch {
                    origin: Caller::Signed(owner),
                    call: NftsCall::SetCollectionMetadata { collection: collection_id, data },
                },
            ),
            Change::NftMetadata { collection_id, asset_id, data, owner } => carried_out(
                change.remote_call(),
                owner,
            ) == Some(
                Dispatch {
                    origin: Caller::Signed(owner),
                    call: NftsCall::SetMetadata { collection: collection_id, item: asset_id, data },
                },
            ),
            Change::CollectionBurn { collection_id, burn_data, owner } => carried_out(
                change.remote_call(),
                owner,
            ) == Some(
                Dispatch {
                    origin: Caller::Signed(owner),
                    call: NftsCall::Destroy { collection: collection_id, witness: burn_data },
                },
            ),
            Change::NftBurn { collection_id, asset_id, owner } => carried_out(
                change.remote_call(),
                owner,
            ) == Some(
                Dispatch {
                    origin: Caller::Signed(owner),
                    call: NftsCall::Burn { collection: collection_id, item: asset_id },
                },
            ),
            Change::NftOwner { collection_id, asset_id, new_owner, owner } => carried_out(
                change.remote_call(),
                owner,
            ) == Some(
                Dispatch {
                    origin: Caller::Signed(owner),
                    call: NftsCall::Transfer {
                        collection: collection_id,
                        item: asset_id,
                        dest: new_owner,
                    },
                },
            ),
            Change::CollectionOwner { collection_id, new_owner } => change.remote_call()
                == RemoteCall::Nfts(
                NftsCall::TransferOwnership { collection: collection_id, new_owner },
            ),
        },
{
}

/// An item that was received can be claimed once: a second claim finds nothing that was received.
pub proof fn law_item_is_claimed_once(
    storage: Storage,
    who: AccountId,
    origin_collection_at_destination: CollectionId,
    origin_collection_at_origin: CollectionId,
    current: AssetKey,
    origin_item_owner: Option<AccountId>,
    current_item: Option<ItemState>,
)
    requires
        claim_failure(
            storage,
            Origin::Signed(who),
            origin_collection_at_destination,
            origin_collection_at_origin,
            current,
            true,
            true,
            origin_item_owner,
            current_item,
        ) is None,
    ensures
        claim_failure(
            storage.without_received_asset(current),
            Origin::Signed(who),
            origin_collection_at_destination,
            origin_collection_at_origin,
            current,
            true,
            true,
            origin_item_owner,
            current_item,
        ) == Some(Failure::Module(Error::NFTNotReceived)),
{
}

/// Whether an effect takes an item away.
pub open spec fn takes_item(effect: Effect, asset: AssetKey) -> bool {
    match effect {
        Effect::RemoveItem { collection, item } => asset == (AssetKey { collection, item }),
        Effect::Dispatch(Dispatch { call: NftsCall::Burn { collection, item }, .. }) => asset == (
        AssetKey { collection, item }),
        _ => false,
    }
}

/// Whether one of the effects takes an item away.
pub open spec fn is_taken(effects: Seq<Effect>, asset: AssetKey) -> bool {
    exists|i: int| 0 <= i < effects.len() && takes_item(#[trigger] effects[i], asset)
}

/// An item that is sent away from the chain on which it was made stays there as a placeholder, and
/// as long as it does, nothing can arrive in its place, not even the item itself.
pub proof fn law_placeholder_keeps_its_place(
    storage: Storage,
    asset: AssetKey,
    collection_owner: AccountId,
    account: Option<AccountId>,
)
    ensures
        !is_taken(sent_item_effects(asset, false), asset),
        arrival_failure(storage, asset, Some(collection_owner), true, account) == Some(
            Failure::Module(Error::NFTExists),
        ),
{
}

/// Whether an effect concerns nothing outside a collection, but for deposits that are given back.
pub open spec fn concerns_only(effect: Effect, concerned: CollectionId) -> bool {
    match effect {
        Effect::Dispatch(_) => false,
        Effect::Unreserve { .. } => true,
        Effect::RemoveCollection { collection } => collection == concerned,
        Effect::RemoveCollectionMetadata { collection } => collection == concerned,
        Effect::RemoveCollectionConfig { collection } => collection == concerned,
        Effect::RemoveCollectionRole { collection, .. } => collection == concerned,
        Effect::RemoveCollectionAccount { collection, .. } => collection == concerned,
        Effect::RemoveAccount { collection, .. } => collection == concerned,
        Effect::RemoveItem { collection, .. } => collection == concerned,
        Effect::RemovePendingSwap { collection, .. } => collection == concerned,
        Effect::RemoveItemMetadata { collection, .. } => collection == concerned,
        Effect::RemoveItemAttributesApprovals { collection, .. } => collection == concerned,
        Effect::RemoveItemPrice { collection, .. } => collection == concerned,
        Effect::RemoveItemConfig { collection, .. } => collection == concerned,
    }
}

/// Whether effects remove an item, who owns it, and everything stored about it.
pub open spec fn removes_item(
    effects: Seq<Effect>,
    collection: CollectionId,
    state: ItemState,
) -> bool {
    let item = state.id;
    &&& effects.contains(Effect::RemoveAccount { owner: state.owner, collection, item })
    &&& effects.contains(Effect::RemoveItem { collection, item })
    &&& effects.contains(Effect::RemovePendingSwap { collection, item })
    &&& effects.contains(Effect::RemoveItemMetadata { collection, item })
    &&& effects.contains(Effect::RemoveItemAttributesApprovals { collection, item })
    &&& effects.contains(Effect::RemoveItemPrice { collection, item })
    &&& effects.contains(Effect::RemoveItemConfig { collection, item })
    &&& state.depositor is Some && state.deposit is Some ==> effects.contains(
        Effect::Unreserve { who: state.depositor->0, amount: state.deposit->0 },
    )
}

/// What stands in a part stands in the whole.
proof fn lemma_contains_in_sum(a: Seq<Effect>, b: Seq<Effect>, effect: Effect)
    ensures
        a.contains(effect) ==> (a + b).contains(effect),
        b.contains(effect) ==> (a + b).contains(effect),
{
    if a.contains(effect) {
        let i = choose|i: int| 0 <= i < a.len() && a[i] == effect;
        assert((a + b)[i] == effect);
    }
    if b.contains(effect) {
        let i = choose|i: int| 0 <= i < b.len() && b[i] == effect;
        assert((a + b)[a.len() + i] == effect);
    }
}

/// What removes an item still does with more before and after it.
proof fn lemma_removes_item_in_sum(
    a: Seq<Effect>,
    b: Seq<Effect>,
    collection: CollectionId,
    state: ItemState,
)
    ensures
        removes_item(a, collection, state) ==> removes_item(a + b, collection, state),
        removes_item(b, collection, state) ==> removes_item(a + b, collection, state),
{
    let item = state.id;
    lemma_contains_in_sum(a, b, Effect::RemoveAccount { owner: state.owner, collection, item });
    lemma_contains_in_sum(a, b, Effect::RemoveItem { collection, item });
    lemma_contains_in_sum(a, b, Effect::RemovePendingSwap { collection, item });
    lemma_contains_in_sum(a, b, Effect::RemoveItemMetadata { collection, item });
    lemma_contains_in_sum(a, b, Effect::RemoveItemAttributesApprovals { collection, item });
    lemma_contains_in_sum(a, b, Effect::RemoveItemPrice { collection, item });
    lemma_contains_in_sum(a, b, Effect::RemoveItemConfig { collection, item });
    lemma_contains_in_sum(
        a,
        b,
        Effect::Unreserve { who: state.depositor->0, amount: state.deposit->0 },
    );
}

/// The removals of one item remove it.
proof fn lemma_item_removals(collection: CollectionId, state: ItemState)
    ensures
        removes_item(item_removals(collection, state), collection, state),
        forall|i: int|
            0 <= i < item_removals(collection, state).len() ==> concerns_only(
                #[trigger] item_removals(collection, state)[i],
                collection,
            ),
{
    let effects = item_removals(collection, state);
    let item = state.id;
    let k: int = if state.depositor is Some && state.deposit is Some {
        1
    } else {
        0
    };
    assert(effects[k] == Effect::RemoveAccount { owner: state.owner, collection, item });
    assert(effects[k + 1] == Effect::RemoveItem { collection, item });
    assert(effects[k + 2] == Effect::RemovePendingSwap { collection, item });
    assert(effects[k + 3] == Effect::RemoveItemMetadata { collection, item });
    assert(effects[k + 4] == Effect::RemoveItemAttributesApprovals { collection, item });
    assert(effects[k + 5] == Effect::RemoveItemPrice { collection, item });
    assert(effects[k + 6] == Effect::RemoveItemConfig { collection, item });
    if k == 1 {
        assert(effects[0] == Effect::Unreserve {
            who: state.depositor->0,
            amount: state.deposit->0,
        });
    }
}

/// The removals of items remove each of them.
proof fn lemma_items_removals(collection: CollectionId, items: Seq<ItemState>)
    ensures
        forall|i: int|
            0 <= i < items.len() ==> removes_item(
                items_removals(collection, items),
                collection,
                #[trigger] items[i],
            ),
        forall|i: int|
            0 <= i < items_removals(collection, items).len() ==> concerns_only(
                #[trigger] items_removals(collection, items)[i],
                collection,
            ),
    decreases items.len(),
{
    if items.len() > 0 {
        let front = items.drop_last();
        let before = items_removals(collection, front);
        let last = item_removals(collection, items.last());
        lemma_items_removals(collection, front);
        lemma_item_removals(collection, items.last());
        assert forall|i: int| 0 <= i < items.len() implies removes_item(
            items_removals(collection, items),
            collection,
            #[trigger] items[i],
        ) by {
            if i < front.len() {
                assert(removes_item(before, collection, front[i]));
            }
            lemma_removes_item_in_sum(before, last, collection, items[i]);
        }
    }
}

/// Carrying out a proposal leaves nothing of the collection's items behind: what is stored about
/// each of them goes, its deposit is given back to who paid it, and nothing that concerns another
/// collection is touched.
pub proof fn law_initiation_removes_every_item(
    collection: CollectionId,
    items: Seq<ItemState>,
    who: AccountId,
    deposit: Option<Balance>,
)
    ensures
        ({
            let effects = items_removals(collection, items) + collection_removals(
                collection,
                who,
                deposit,
            );
            &&& forall|i: int|
                0 <= i < items.len() ==> removes_item(effects, collection, #[trigger] items[i])
            &&& effects.contains(Effect::RemoveCollection { collection })
            &&& deposit is Some ==> effects.contains(Effect::Unreserve { who, amount: deposit->0 })
            &&& forall|i: int|
                0 <= i < effects.len() ==> concerns_only(#[trigger] effects[i], collection)
        }),
{
    let of_items = items_removals(collection, items);
    let of_collection = collection_removals(collection, who, deposit);
    lemma_items_removals(collection, items);
    assert forall|i: int| 0 <= i < items.len() implies removes_item(
        of_items + of_collection,
        collection,
        #[trigger] items[i],
    ) by {
        lemma_removes_item_in_sum(of_items, of_collection, collection, items[i]);
    }
    let k: int = if deposit is Some {
        1
    } else {
        0
    };
    assert(of_collection[k] == Effect::RemoveCollection { collection });
    if deposit is Some {
        assert(of_collection[0] == Effect::Unreserve { who, amount: deposit->0 });
        lemma_contains_in_sum(
            of_items,
            of_collection,
            Effect::Unreserve { who, amount: deposit->0 },
        );
    }
    lemma_contains_in_sum(of_items, of_collection, Effect::RemoveCollection { collection });
}

/// Of a collection that goes with its items, exactly the items that were sent along are burned.
pub proof fn law_what_is_sent_is_burned(
    call: RemoteCall,
    origin_collection: CollectionId,
    state: CollectionState,
    destination_account: Address,
    config: CollectionConfigFor,
    chain: ParachainID,
)
    requires
        is_same_owner_call(
            call,
            origin_collection,
            state,
            destination_account,
            config,
            chain,
        ),
    ensures
        call matches RemoteCall::XcNft(Call::ParseCollectionSameOwner { nfts, .. }) && {
            let burns = item_burns(origin_collection, item_ids(state.items@));
            &&& burns.len() == nfts@.len()
            &&& forall|i: int|
                0 <= i < nfts@.len() ==> #[trigger] burns[i] == Effect::Dispatch(
                    Dispatch {
                        origin: Caller::Caller,
                        call: NftsCall::Burn { collection: origin_collection, item: nfts@[i].0 },
                    },
                )
        },
{
}

/// What takes an item in a part takes it in the whole, and the other way round.
proof fn lemma_taken_in_sum(a: Seq<Effect>, b: Seq<Effect>, asset: AssetKey)
    ensures
        is_taken(a + b, asset) <==> is_taken(a, asset) || is_taken(b, asset),
{
    let sum = a + b;
    if is_taken(a, asset) {
        let i = choose|i: int| 0 <= i < a.len() && takes_item(#[trigger] a[i], asset);
        assert(takes_item(sum[i], asset));
    }
    if is_taken(b, asset) {
        let i = choose|i: int| 0 <= i < b.len() && takes_item(#[trigger] b[i], asset);
        assert(takes_item(sum[a.len() + i], asset));
    }
    if is_taken(sum, asset) {
        let i = choose|i: int| 0 <= i < sum.len() && takes_item(#[trigger] sum[i], asset);
        if i < a.len() {
            assert(takes_item(a[i], asset));
        } else {
            assert(takes_item(b[i - a.len()], asset));
        }
    }
}

/// The removals of items take those items.
proof fn lemma_taken_by_removals(collection: CollectionId, items: Seq<ItemState>, asset: AssetKey)
    ensures
        is_taken(items_removals(collection, items), asset) <==> asset.collection == collection
            && exists|i: int| 0 <= i < items.len() && (#[trigger] items[i]).id == asset.item,
    decreases items.len(),
{
    if items.len() > 0 {
        let front = items.drop_last();
        let last = item_removals(collection, items.last());
        lemma_taken_by_removals(collection, front, asset);
        lemma_taken_in_sum(items_removals(collection, front), last, asset);
        let k: int = if items.last().depositor is Some && items.last().deposit is Some {
            2
        } else {
            1
        };
        assert(last[k] == Effect::RemoveItem { collection, item: items.last().id });
        assert(is_taken(last, asset) <==> asset == (AssetKey {
            collection,
            item: items.last().id,
        })) by {
            if asset == (AssetKey { collection, item: items.last().id }) {
                assert(takes_item(last[k], asset));
            }
        }
        if exists|i: int| 0 <= i < items.len() && (#[trigger] items[i]).id == asset.item {
            let i = choose|i: int| 0 <= i < items.len() && (#[trigger] items[i]).id == asset.item;
            if i < front.len() {
                assert(front[i].id == asset.item);
            }
        }
        if exists|i: int| 0 <= i < front.len() && (#[trigger] front[i]).id == asset.item {
            let i = choose|i: int| 0 <= i < front.len() && (#[trigger] front[i]).id == asset.item;
            assert(items[i].id == asset.item);
        }
        assert(items[items.len() - 1] == items.last());
    }
}

/// Of a collection on whose transfer was voted, exactly the items that were sent along are taken
/// away here.
pub proof fn law_what_is_sent_is_removed(
    call: RemoteCall,
    proposal: ProposalView,
    state: CollectionState,
    chain: ParachainID,
    deposit: Option<Balance>,
    asset: AssetKey,
)
    requires
        is_multiple_owners_call(call, proposal, state, chain),
    ensures
        call matches RemoteCall::XcNft(Call::ParseCollectionMultipleOwners { nfts, .. }) && {
            let effects = items_removals(proposal.collection_id, state.items@)
                + collection_removals(proposal.collection_id, state.owner, deposit);
            is_taken(effects, asset) <==> asset.collection == proposal.collection_id && exists|
                i: int,
            |
                0 <= i < nfts@.len() && (#[trigger] nfts@[i]).0 == asset.item
        },
{
    let items = state.items@;
    let of_collection = collection_removals(proposal.collection_id, state.owner, deposit);
    lemma_taken_by_removals(proposal.collection_id, items, asset);
    lemma_taken_in_sum(items_removals(proposal.collection_id, items), of_collection, asset);
    assert(!is_taken(of_collection, asset));
    if let RemoteCall::XcNft(Call::ParseCollectionMultipleOwners { nfts, .. }) = call {
        if exists|i: int| 0 <= i < items.len() && (#[trigger] items[i]).id == asset.item {
            let i = choose|i: int| 0 <= i < items.len() && (#[trigger] items[i]).id == asset.item;
            assert(nfts@[i].0 == asset.item);
        }
        if exists|i: int| 0 <= i < nfts@.len() && (#[trigger] nfts@[i]).0 == asset.item {
            let i = choose|i: int| 0 <= i < nfts@.len() && (#[trigger] nfts@[i]).0 == asset.item;
            assert(items[i].id == asset.item);
        }
    }
}

} // verus!
