use pallet_nfts::DestroyWitness;
use staging_xcm::latest::SendError;
use xcnft::message::{Call, NftsCall, RemoteCall};
use xcnft::pallet::Pallet;
use xcnft::remote::Request;
use xcnft::types::{AccountId, Address, Event, Failure, Origin};

const ALICE: AccountId = AccountId { high: 0, low: 1 };
const NEW: Address<'static> = Address::Encoded(b"new");
const WITNESS: DestroyWitness =
    DestroyWitness { item_metadatas: 1, item_configs: 2, attributes: 3 };

/// Checks a request to chain 2001, and the events about it.
fn check(
    request: Result<Request<'static>, Failure>,
    call: RemoteCall<'static>,
    sent: Event<'static>,
    failed: Event<'static>,
) {
    let request = request.unwrap();
    assert_eq!(request.message.parents, 1);
    assert_eq!(request.message.parachain, 2001);
    assert_eq!(request.message.transact.call, call);
    assert_eq!(request.destination, 2001);
    assert_eq!(request.change.sent(2001, Ok(())), sent);
    assert_eq!(request.change.sent(2001, Err(SendError::Fees)), failed);
}

#[test]
fn collection_metadata_is_updated_elsewhere() {
    let owner = ALICE;
    let data = &b"data"[..];
    check(
        Pallet::collection_x_update(Origin::Signed(ALICE), 5, 2001, data),
        RemoteCall::XcNft(Call::ParseCollectionMetadata {
            owner: Address::Account(ALICE),
            collection: 5,
            data,
        }),
        Event::ColMetadataSent { collection_id: 5, proposed_data: data, owner, destination: 2001 },
        Event::ColMetadataFailedToXCM {
            e: SendError::Fees,
            collection_id: 5,
            proposed_data: data,
            owner,
            destination: 2001,
        },
    );
}

#[test]
fn item_metadata_is_updated_elsewhere() {
    let owner = ALICE;
    let data = &b"data"[..];
    check(
        Pallet::nft_x_update(Origin::Signed(ALICE), 5, 6, 2001, data),
        RemoteCall::XcNft(Call::ParseNftMetadata {
            owner: Address::Account(ALICE),
            collection: 5,
            item: 6,
            data,
        }),
        Event::NFTMetadataSent {
            collection_id: 5,
            asset_id: 6,
            proposed_data: data,
            owner,
            destination: 2001,
        },
        Event::NFTMetadataFailedToXCM {
            e: SendError::Fees,
            collection_id: 5,
            asset_id: 6,
            proposed_data: data,
            owner,
            destination: 2001,
        },
    );
}

#[test]
fn collection_is_burned_elsewhere() {
    let owner = ALICE;
    check(
        Pallet::collection_x_burn(Origin::Signed(ALICE), 5, 2001, WITNESS),
        RemoteCall::XcNft(Call::ParseCollectionBurn {
            owner: Address::Account(ALICE),
            collection_to_burn: 5,
            witness_data: WITNESS,
        }),
        Event::ColBurnSent { collection_id: 5, burn_data: WITNESS, owner, destination: 2001 },
        Event::ColBurnFailedToXCM {
            e: SendError::Fees,
            collection_id: 5,
            burn_data: WITNESS,
            owner,
            destination: 2001,
        },
    );
}

#[test]
fn item_is_burned_elsewhere() {
    let owner = ALICE;
    check(
        Pallet::nft_x_burn(Origin::Signed(ALICE), 5, 6, 2001),
        RemoteCall::XcNft(Call::ParseNftBurn {
            owner: Address::Account(ALICE),
            collection: 5,
            item: 6,
        }),
        Event::NFTBurnSent { collection_id: 5, asset_id: 6, owner, destination: 2001 },
        Event::NFTBurnFailedToXCM {
            e: SendError::Fees,
            collection_id: 5,
            asset_id: 6,
            owner,
            destination: 2001,
        },
    );
}

#[test]
fn collection_changes_hands_elsewhere() {
    check(
        Pallet::collection_x_change_owner(Origin::Signed(ALICE), 5, 2001, NEW),
        RemoteCall::Nfts(NftsCall::TransferOwnership { collection: 5, new_owner: NEW }),
        Event::ColOwnershipSent { collection_id: 5, proposed_owner: NEW, destination: 2001 },
        Event::ColOwnershipFailedToXCM {
            e: SendError::Fees,
            collection_id: 5,
            proposed_owner: NEW,
            destination: 2001,
        },
    );
}

#[test]
fn item_changes_hands_elsewhere() {
    check(
        Pallet::nft_x_change_owner(Origin::Signed(ALICE), 5, 6, 2001, NEW),
        RemoteCall::XcNft(Call::ParseNftOwner {
            owner: Address::Account(ALICE),
            new_owner: NEW,
            collection: 5,
            item: 6,
        }),
        Event::NFTOwnershipSent {
            collection_id: 5,
            asset_id: 6,
            proposed_owner: NEW,
            destination: 2001,
        },
        Event::NFTOwnershipFailedToXCM {
            e: SendError::Fees,
            collection_id: 5,
            asset_id: 6,
            proposed_owner: NEW,
            destination: 2001,
        },
    );
}

#[test]
fn only_signed_accounts_ask_for_changes() {
    let bad = Some(Failure::BadOrigin);
    for origin in [Origin::Root, Origin::Other] {
        assert_eq!(Pallet::collection_x_update(origin, 5, 2001, b"").err(), bad);
        assert_eq!(Pallet::nft_x_update(origin, 5, 6, 2001, b"").err(), bad);
        assert_eq!(Pallet::collection_x_burn(origin, 5, 2001, WITNESS).err(), bad);
        assert_eq!(Pallet::nft_x_burn(origin, 5, 6, 2001).err(), bad);
        assert_eq!(Pallet::collection_x_change_owner(origin, 5, 2001, NEW).err(), bad);
        assert_eq!(Pallet::nft_x_change_owner(origin, 5, 6, 2001, NEW).err(), bad);
    }
}
