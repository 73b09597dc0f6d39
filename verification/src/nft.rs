//! Sending single items to another chain, and claiming them into a collection that followed.
use staging_xcm::latest::SendError;
use vstd::prelude::*;

use crate::laws::{lemma_stays_sound, Operation};
use crate::message::{Call, Caller, Dispatch, Effect, Message, NftsCall, RemoteCall};
use crate::pallet::{bytes_or_none, ensure_signed, metadata_or_empty, Pallet, Storage};
use crate::types::{
    AccountId, Address, AssetKey, CollectionId, Error, Event, Failure, ItemId, ItemState, Origin,
    ParachainID, SentStruct,
};

verus! {

/// Why an account may not send an item.
pub open spec fn nft_transfer_failure(
    origin: Origin,
    collection_exists: bool,
    item: Option<ItemState>,
) -> Option<Failure> {
    match origin {
        Origin::Signed(who) => if !collection_exists {
            Some(Failure::Module(Error::CollectionDoesNotExist))
        } else if item is None {
            Some(Failure::Module(Error::NFTDoesNotExist))
        } else if item->0.owner != who {
            Some(Failure::Module(Error::NotNFTOwner))
        } else {
            None
        },
        _ => Some(Failure::BadOrigin),
    }
}

/// Why an account may not claim an item.
pub open spec fn claim_failure(
    storage: Storage,
    origin: Origin,
    origin_collection_at_destination: CollectionId,
    origin_collection_at_origin: CollectionId,
    current: AssetKey,
    current_collection_exists: bool,
    origin_collection_exists: bool,
    origin_item_owner: Option<AccountId>,
    current_item: Option<ItemState>,
) -> Option<Failure> {
    match origin {
        Origin::Signed(who) => if !current_collection_exists || !origin_collection_exists {
            Some(Failure::Module(Error::CollectionDoesNotExist))
        } else if storage.received_collections[origin_collection_at_destination].origin_collection_id
            != origin_collection_at_origin {
            Some(Failure::Module(Error::WrongOriginCollectionAtOrigin))
        } else if !storage.received_assets.contains_key(current) {
            Some(Failure::Module(Error::NFTNotReceived))
        } else if origin_item_owner is None {
            Some(Failure::Module(Error::NFTDoesNotExist))
        } else if origin_item_owner->0 != who {
            Some(Failure::Module(Error::NotNFTOwner))
        } else if current_item is None {
            Some(Failure::Module(Error::NFTDoesNotExist))
        } else if current_item->0.owner != who {
            Some(Failure::Module(Error::NotNFTOwner))
        } else {
            None
        },
        _ => Some(Failure::BadOrigin),
    }
}

/// The call that has the destination take an item.
pub open spec fn is_nft_transfer_call(
    call: RemoteCall,
    who: AccountId,
    sent: AssetKey,
    destination: AssetKey,
    metadata: Option<&[u8]>,
    destination_account: Address,
    chain: ParachainID,
) -> bool {
    match call {
        RemoteCall::XcNft(
            Call::ParseNftTransfer {
                owner,
                collection,
                item,
                data,
                mint_to,
                origin_collection,
                origin_item,
                origin_chain,
            },
        ) => {
            &&& owner == Address::Account(who)
            &&& collection == destination.collection
            &&& item == destination.item
            &&& data@ == bytes_or_none(metadata)
            &&& mint_to == destination_account
            &&& origin_collection == sent.collection
            &&& origin_item == sent.item
            &&& origin_chain == chain
        },
        _ => false,
    }
}

/// An item that was handed to the router.
#[derive(PartialEq, Debug)]
pub struct PendingNft<'a> {
    pub who: AccountId,
    pub asset: AssetKey,
    pub destination_para: ParachainID,
    pub destination_account: Address<'a>,
    pub destination: AssetKey,
}

impl Storage {
    /// What is remembered of an asset that leaves: where it was made is known from its arrival, if
    /// it ever arrived, and is here otherwise.
    pub open spec fn sent_record(self, asset: AssetKey, destination: AssetKey) -> SentStruct {
        if self.received_assets.contains_key(asset) {
            let received = self.received_assets[asset];
            SentStruct {
                origin_para_id: received.origin_para_id,
                origin_collection_id: received.origin_collection_id,
                origin_asset_id: received.origin_asset_id,
                destination_collection_id: destination.collection,
                destination_asset_id: destination.item,
            }
        } else {
            SentStruct {
                origin_para_id: self.config.parachain_id,
                origin_collection_id: asset.collection,
                origin_asset_id: asset.item,
                destination_collection_id: destination.collection,
                destination_asset_id: destination.item,
            }
        }
    }

    /// The storage once an asset has left.
    pub open spec fn with_asset_sent(self, asset: AssetKey, destination: AssetKey) -> Storage {
        Storage {
            sent_assets: self.sent_assets.insert(asset, self.sent_record(asset, destination)),
            received_assets: self.received_assets.remove(asset),
            ..self
        }
    }

    /// The storage once an asset is no longer known as received.
    pub open spec fn without_received_asset(self, asset: AssetKey) -> Storage {
        Storage { received_assets: self.received_assets.remove(asset), ..self }
    }
}

/// What is done with an item that has left, in order: one that had been received is burned, one
/// that was made here stays as a placeholder, bare of metadata, settings and price.
pub open spec fn sent_item_effects(asset: AssetKey, was_received: bool) -> Seq<Effect<'static>> {
    let collection = asset.collection;
    let item = asset.item;
    if was_received {
        seq![
            Effect::Dispatch(
                Dispatch { origin: Caller::Caller, call: NftsCall::Burn { collection, item } },
            ),
        ]
    } else {
        seq![
            Effect::RemoveItemMetadata { collection, item },
            Effect::RemoveItemConfig { collection, item },
            Effect::RemoveItemPrice { collection, item },
        ]
    }
}

/// Whether `effects` burn the current item and then give its metadata to the item of the collection
/// that followed, both as whoever called the pallet.
pub open spec fn is_claim(
    effects: Seq<Effect>,
    claimed: AssetKey,
    current: AssetKey,
    metadata: Option<&[u8]>,
) -> bool {
    &&& effects.len() == 2
    &&& effects[0] == Effect::Dispatch(
        Dispatch {
            origin: Caller::Caller,
            call: NftsCall::Burn { collection: current.collection, item: current.item },
        },
    )
    &&& effects[1] matches Effect::Dispatch(
        Dispatch { origin, call: NftsCall::SetMetadata { collection, item, data } },
    )
    &&& origin == Caller::Caller
    &&& collection == claimed.collection
    &&& item == claimed.item
    &&& data@ == bytes_or_none(metadata)
}

impl Pallet {
    /// Sends an item to another chain, into a collection there.
    ///
    /// `collection_exists` says whether the chain knows `origin_collection`, and `item` is what it
    /// stores under `origin_asset` there. The message is to be sent, and the outcome handed to
    /// [`Pallet::nft_x_transfer_sent`].
    pub fn nft_x_transfer<'a>(
        &self,
        origin: Origin,
        origin_collection: CollectionId,
        origin_asset: ItemId,
        destination_para: ParachainID,
        destination_account: Address<'a>,
        destination_collection: CollectionId,
        destination_asset: ItemId,
        collection_exists: bool,
        item: Option<ItemState<'a>>,
    ) -> (r: Result<(Message<'a>, PendingNft<'a>), Failure>)
        ensures
            match nft_transfer_failure(origin, collection_exists, item) {
                Some(failure) => {
                    &&& r matches Err(f)
                    &&& f == failure
                },
                None => {
                    let sent = AssetKey { collection: origin_collection, item: origin_asset };
                    let destination = AssetKey {
                        collection: destination_collection,
                        item: destination_asset,
                    };
                    &&& r matches Ok((message, pending))
                    &&& message.is_addressed_to(destination_para)
                    &&& is_nft_transfer_call(
                        message.call(),
                        item->0.owner,
                        sent,
                        destination,
                        item->0.metadata,
                        destination_account,
                        self@.config.parachain_id,
                    )
                    &&& pending == (PendingNft {
                        who: item->0.owner,
                        asset: sent,
                        destination_para,
                        destination_account,
                        destination,
                    })
                },
            },
            r is Ok <==> origin is Signed && collection_exists && item is Some && item->0.owner
                == origin->0,
    {
        let who = match ensure_signed(origin) {
            Ok(who) => who,
            Err(failure) => {
                return Err(failure);
            },
        };
        if !collection_exists {
            return Err(Failure::Module(Error::CollectionDoesNotExist));
        }
        let item = match item {
            Some(item) => item,
            None => {
                return Err(Failure::Module(Error::NFTDoesNotExist));
            },
        };
        if item.owner != who {
            return Err(Failure::Module(Error::NotNFTOwner));
        }
        let message = Message::to_sibling(
            destination_para,
            RemoteCall::XcNft(
                Call::ParseNftTransfer {
                    owner: Address::Account(who),
                    collection: destination_collection,
                    item: destination_asset,
                    data: metadata_or_empty(item.metadata),
                    mint_to: destination_account,
                    origin_collection,
                    origin_item: origin_asset,
                    origin_chain: self.config.parachain_id,
                },
            ),
        );
        let pending = PendingNft {
            who,
            asset: AssetKey { collection: origin_collection, item: origin_asset },
            destination_para,
            destination_account,
            destination: AssetKey { collection: destination_collection, item: destination_asset },
        };
        Ok((message, pending))
    }

    /// Ends the transfer of an item once the router has answered.
    pub fn nft_x_transfer_sent<'a>(
        &mut self,
        pending: PendingNft<'a>,
        sent: Result<(), SendError>,
    ) -> (r: (Vec<Effect<'static>>, Event<'a>))
        ensures
            old(self)@.is_sound() ==> final(self)@.is_sound(),
            match sent {
                Ok(()) => {
                    &&& final(self)@ == old(self)@.with_asset_sent(
                        pending.asset,
                        pending.destination,
                    )
                    &&& r.0@ == sent_item_effects(
                        pending.asset,
                        old(self)@.received_assets.contains_key(pending.asset),
                    )
                    &&& r.1 == (Event::NFTTransferred {
                        origin_collection_id: pending.asset.collection,
                        origin_asset_id: pending.asset.item,
                        destination_para_id: pending.destination_para,
                        destination_collection_id: pending.destination.collection,
                        destination_asset_id: pending.destination.item,
                        to_address: pending.destination_account,
                    })
                },
                Err(e) => {
                    &&& final(self)@ == old(self)@
                    &&& r.0@.len() == 0
                    &&& r.1 == (Event::CollectionFailedToXCM {
                        e,
                        collection_id: pending.asset.collection,
                        owner: pending.who,
                        destination: pending.destination_para,
                    })
                },
            },
    {
        proof {
            lemma_stays_sound(
                self@,
                Operation::NftDelivered { asset: pending.asset, destination: pending.destination },
            );
        }
        let mut effects: Vec<Effect<'static>> = Vec::new();
        let collection = pending.asset.collection;
        let item = pending.asset.item;
        match sent {
            Ok(()) => {
                match self.received_assets.remove(pending.asset) {
                    Some(received) => {
                        self.sent_assets.insert(
                            pending.asset,
                            SentStruct {
                                origin_para_id: received.origin_para_id,
                                origin_collection_id: received.origin_collection_id,
                                origin_asset_id: received.origin_asset_id,
                                destination_collection_id: pending.destination.collection,
                                destination_asset_id: pending.destination.item,
                            },
                        );
                        effects.push(
                            Effect::Dispatch(
                                Dispatch {
                                    origin: Caller::Caller,
                                    call: NftsCall::Burn { collection, item },
                                },
                            ),
                        );
                    },
                    None => {
                        effects.push(Effect::RemoveItemMetadata { collection, item });
                        effects.push(Effect::RemoveItemConfig { collection, item });
                        effects.push(Effect::RemoveItemPrice { collection, item });
                        self.sent_assets.insert(
                            pending.asset,
                            SentStruct {
                                origin_para_id: self.config.parachain_id,
                                origin_collection_id: collection,
                                origin_asset_id: item,
                                destination_collection_id: pending.destination.collection,
                                destination_asset_id: pending.destination.item,
                            },
                        );
                    },
                }
                (
                    effects,
                    Event::NFTTransferred {
                        origin_collection_id: collection,
                        origin_asset_id: item,
                        destination_para_id: pending.destination_para,
                        destination_collection_id: pending.destination.collection,
                        destination_asset_id: pending.destination.item,
                        to_address: pending.destination_account,
                    },
                )
            },
            Err(e) => (
                effects,
                Event::CollectionFailedToXCM {
                    e,
                    collection_id: collection,
                    owner: pending.who,
                    destination: pending.destination_para,
                },
            ),
        }
    }

    /// Claims an item that was received on its own into the collection that was received later.
    ///
    /// `current_collection_exists` and `origin_collection_exists` say which of the two collections
    /// the chain knows, `origin_item_owner` who owns the item of the collection that was received,
    /// and `current_item` is what the chain stores about the item that was received on its own.
    pub fn nft_x_claim<'a>(
        &mut self,
        origin: Origin,
        origin_collection_at_destination: CollectionId,
        origin_collection_at_origin: CollectionId,
        origin_asset_at_destination: ItemId,
        current_collection: CollectionId,
        current_asset: ItemId,
        current_collection_exists: bool,
        origin_collection_exists: bool,
        origin_item_owner: Option<AccountId>,
        current_item: Option<ItemState<'a>>,
    ) -> (r: Result<(Vec<Effect<'a>>, Event<'static>), Failure>)
        requires
            origin is Signed && current_collection_exists && origin_collection_exists ==> old(
                self,
            )@.received_collections.contains_key(origin_collection_at_destination),
        ensures
            old(self)@.is_sound() ==> final(self)@.is_sound(),
            ({
                let current = AssetKey { collection: current_collection, item: current_asset };
                match claim_failure(
                    old(self)@,
                    origin,
                    origin_collection_at_destination,
                    origin_collection_at_origin,
                    current,
                    current_collection_exists,
                    origin_collection_exists,
                    origin_item_owner,
                    current_item,
                ) {
                    Some(failure) => {
                        &&& final(self)@ == old(self)@
                        &&& r matches Err(f)
                        &&& f == failure
                    },
                    None => {
                        &&& final(self)@ == old(self)@.without_received_asset(current)
                        &&& r matches Ok((effects, event))
                        &&& is_claim(
                            effects@,
                            AssetKey {
                                collection: origin_collection_at_destination,
                                item: origin_asset_at_destination,
                            },
                            current,
                            current_item->0.metadata,
                        )
                        &&& event == (Event::NFTClaimed {
                            collection_claimed_from: current_collection,
                            asset_removed: current_asset,
                            collection_claimed_to: origin_collection_at_destination,
                            asset_claimed: origin_asset_at_destination,
                        })
                    },
                }
            }),
            r is Ok <==> {
                &&& origin is Signed
                &&& current_collection_exists
                &&& origin_collection_exists
                &&& old(
                    self,
                )@.received_collections[origin_collection_at_destination].origin_collection_id
                    == origin_collection_at_origin
                &&& old(self)@.received_assets.contains_key(
                    AssetKey { collection: current_collection, item: current_asset },
                )
                &&& origin_item_owner == Some(origin->0)
                &&& current_item is Some
                &&& current_item->0.owner == origin->0
            },
    {
        let who = match ensure_signed(origin) {
            Ok(who) => who,
            Err(failure) => {
                return Err(failure);
            },
        };
        if !current_collection_exists || !origin_collection_exists {
            return Err(Failure::Module(Error::CollectionDoesNotExist));
        }
        let is_right = match self.received_collections.get(origin_collection_at_destination) {
            Some(received) => received.origin_collection_id == origin_collection_at_origin,
            None => false,
        };
        if !is_right {
            return Err(Failure::Module(Error::WrongOriginCollectionAtOrigin));
        }
        let current = AssetKey { collection: current_collection, item: current_asset };
        if !self.received_assets.contains_key(current) {
            return Err(Failure::Module(Error::NFTNotReceived));
        }
        match origin_item_owner {
            Some(owner) => if owner != who {
                return Err(Failure::Module(Error::NotNFTOwner));
            },
            None => {
                return Err(Failure::Module(Error::NFTDoesNotExist));
            },
        }
        let item = match current_item {
            Some(item) => item,
            None => {
                return Err(Failure::Module(Error::NFTDoesNotExist));
            },
        };
        if item.owner != who {
            return Err(Failure::Module(Error::NotNFTOwner));
        }
        let mut effects: Vec<Effect<'a>> = Vec::new();
        effects.push(
            Effect::Dispatch(
                Dispatch {
                    origin: Caller::Caller,
                    call: NftsCall::Burn { collection: current_collection, item: current_asset },
                },
            ),
        );
        effects.push(
            Effect::Dispatch(
                Dispatch {
                    origin: Caller::Caller,
                    call: NftsCall::SetMetadata {
                        collection: origin_collection_at_destination,
                        item: origin_asset_at_destination,
                        data: metadata_or_empty(item.metadata),
                    },
                },
            ),
        );
        proof {
            lemma_stays_sound(self@, Operation::NftClaimed { current });
        }
        let _ = self.received_assets.remove(current);
        Ok(
            (
                effects,
                Event::NFTClaimed {
                    collection_claimed_from: current_collection,
                    asset_removed: current_asset,
                    collection_claimed_to: origin_collection_at_destination,
                    asset_claimed: origin_asset_at_destination,
                },
            ),
        )
    }
}

} // verus!
