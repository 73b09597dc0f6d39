use staging_xcm::latest::SendError;
use xcnft::message::{Call, Caller, Dispatch, Effect, NftsCall, RemoteCall};
use xcnft::nft::PendingNft;
use xcnft::pallet::Pallet;
use xcnft::types::{
    AccountId, Address, AssetKey, Config, Error, Event, Failure, ItemState, Origin, ReceivedCols,
    ReceivedStruct, SentStruct,
};

const ALICE: AccountId = AccountId { high: 0, low: 1 };
const BOB: AccountId = AccountId { high: 0, low: 2 };
const HERE: AssetKey = AssetKey { collection: 5, item: 6 };
const THERE: AssetKey = AssetKey { collection: 15, item: 16 };

fn pallet() -> Pallet {
    Pallet::new(Config { proposal_time_in_blocks: 100, max_owners: 255, parachain_id: 2000 })
}

fn item(owner: AccountId, metadata: Option<&[u8]>) -> ItemState<'_> {
    ItemState { id: 6, owner, metadata, depositor: None, deposit: None }
}

fn send<'a>(
    pallet: &Pallet,
    origin: Origin,
    collection_exists: bool,
    item: Option<ItemState<'a>>,
) -> Result<(RemoteCall<'a>, PendingNft<'a>), Failure> {
    pallet
        .nft_x_transfer(
            origin,
            HERE.collection,
            HERE.item,
            2001,
            Address::Encoded(b"bob"),
            THERE.collection,
            THERE.item,
            collection_exists,
            item,
        )
        .map(|(message, pending)| {
            assert_eq!(message.parachain, 2001);
            (message.transact.call, pending)
        })
}

fn pending() -> PendingNft<'static> {
    PendingNft {
        who: ALICE,
        asset: HERE,
        destination_para: 2001,
        destination_account: Address::Encoded(b"bob"),
        destination: THERE,
    }
}

fn received() -> ReceivedStruct {
    ReceivedStruct {
        origin_para_id: 3000,
        origin_collection_id: 31,
        origin_asset_id: 32,
        received_collection_id: 5,
        received_asset_id: 6,
    }
}

#[test]
fn item_transfer_is_refused() {
    let pallet = pallet();
    let mine = Some(item(ALICE, None));
    assert_eq!(send(&pallet, Origin::Root, true, mine), Err(Failure::BadOrigin));
    assert_eq!(
        send(&pallet, Origin::Signed(ALICE), false, mine),
        Err(Failure::Module(Error::CollectionDoesNotExist))
    );
    assert_eq!(
        send(&pallet, Origin::Signed(ALICE), true, None),
        Err(Failure::Module(Error::NFTDoesNotExist))
    );
    assert_eq!(
        send(&pallet, Origin::Signed(BOB), true, mine),
        Err(Failure::Module(Error::NotNFTOwner))
    );
}

#[test]
fn item_is_sent_with_its_metadata() {
    for (metadata, data) in [(Some(&b"x"[..]), &b"x"[..]), (None, &b""[..])] {
        let sent = send(&pallet(), Origin::Signed(ALICE), true, Some(item(ALICE, metadata)));
        assert_eq!(
            sent,
            Ok((
                RemoteCall::XcNft(Call::ParseNftTransfer {
                    owner: Address::Account(ALICE),
                    collection: 15,
                    item: 16,
                    data,
                    mint_to: Address::Encoded(b"bob"),
                    origin_collection: 5,
                    origin_item: 6,
                    origin_chain: 2000,
                }),
                pending()
            ))
        );
    }
}

#[test]
fn item_made_here_stays_as_a_placeholder() {
    let mut pallet = pallet();
    let (effects, event) = pallet.nft_x_transfer_sent(pending(), Ok(()));
    assert_eq!(
        effects,
        vec![
            Effect::RemoveItemMetadata { collection: 5, item: 6 },
            Effect::RemoveItemConfig { collection: 5, item: 6 },
            Effect::RemoveItemPrice { collection: 5, item: 6 },
        ]
    );
    assert_eq!(
        pallet.sent_assets.get(HERE),
        Some(&SentStruct {
            origin_para_id: 2000,
            origin_collection_id: 5,
            origin_asset_id: 6,
            destination_collection_id: 15,
            destination_asset_id: 16,
        })
    );
    assert_eq!(
        event,
        Event::NFTTransferred {
            origin_collection_id: 5,
            origin_asset_id: 6,
            destination_para_id: 2001,
            destination_collection_id: 15,
            destination_asset_id: 16,
            to_address: Address::Encoded(b"bob"),
        }
    );
}

#[test]
fn item_that_moves_on_keeps_its_origin() {
    let mut pallet = pallet();
    pallet.received_assets.insert(HERE, received());
    let (effects, _) = pallet.nft_x_transfer_sent(pending(), Ok(()));
    assert_eq!(
        effects,
        vec![Effect::Dispatch(Dispatch {
            origin: Caller::Caller,
            call: NftsCall::Burn { collection: 5, item: 6 },
        })]
    );
    assert!(!pallet.received_assets.contains_key(HERE));
    assert_eq!(
        pallet.sent_assets.get(HERE),
        Some(&SentStruct {
            origin_para_id: 3000,
            origin_collection_id: 31,
            origin_asset_id: 32,
            destination_collection_id: 15,
            destination_asset_id: 16,
        })
    );
}

#[test]
fn item_stays_when_the_message_does_not_go_out() {
    let mut pallet = pallet();
    pallet.received_assets.insert(HERE, received());
    let (effects, event) =
        pallet.nft_x_transfer_sent(pending(), Err(SendError::Transport("no route")));
    assert_eq!(effects, vec![]);
    assert_eq!(
        event,
        Event::CollectionFailedToXCM {
            e: SendError::Transport("no route"),
            collection_id: 5,
            owner: ALICE,
            destination: 2001,
        }
    );
    assert!(pallet.received_assets.contains_key(HERE));
    assert!(!pallet.sent_assets.contains_key(HERE));
}

/// A pallet that received an item and, as collection 40, the collection 31 that it came from.
fn pallet_for_claims() -> Pallet {
    let mut pallet = pallet();
    pallet.received_assets.insert(HERE, received());
    pallet.received_collections.insert(
        40,
        ReceivedCols { origin_para_id: 3000, origin_collection_id: 31, received_collection_id: 40 },
    );
    pallet
}

#[test]
fn item_is_claimed_once() {
    let mut pallet = pallet_for_claims();
    let current = Some(item(ALICE, Some(b"x")));
    let claimed = pallet.nft_x_claim(
        Origin::Signed(ALICE),
        40,
        31,
        32,
        5,
        6,
        true,
        true,
        Some(ALICE),
        current,
    );
    assert_eq!(
        claimed,
        Ok((
            vec![
                Effect::Dispatch(Dispatch {
                    origin: Caller::Caller,
                    call: NftsCall::Burn { collection: 5, item: 6 },
                }),
                Effect::Dispatch(Dispatch {
                    origin: Caller::Caller,
                    call: NftsCall::SetMetadata { collection: 40, item: 32, data: b"x" },
                }),
            ],
            Event::NFTClaimed {
                collection_claimed_from: 5,
                asset_removed: 6,
                collection_claimed_to: 40,
                asset_claimed: 32,
            }
        ))
    );
    assert!(!pallet.received_assets.contains_key(HERE));
    let again = pallet.nft_x_claim(
        Origin::Signed(ALICE),
        40,
        31,
        32,
        5,
        6,
        true,
        true,
        Some(ALICE),
        current,
    );
    assert_eq!(again, Err(Failure::Module(Error::NFTNotReceived)));
}

#[test]
fn claim_is_refused() {
    let mine = Some(item(ALICE, None));
    let theirs = Some(item(BOB, None));
    let signed = Origin::Signed(ALICE);
    let module = Failure::Module;
    // Origin, collection at origin, which collections exist, owners of the two items, and why.
    let cases = [
        (Origin::Root, 31, true, true, Some(ALICE), mine, Failure::BadOrigin),
        (signed, 31, false, true, Some(ALICE), mine, module(Error::CollectionDoesNotExist)),
        (signed, 31, true, false, Some(ALICE), mine, module(Error::CollectionDoesNotExist)),
        (signed, 30, true, true, Some(ALICE), mine, module(Error::WrongOriginCollectionAtOrigin)),
        (signed, 31, true, true, None, mine, module(Error::NFTDoesNotExist)),
        (signed, 31, true, true, Some(BOB), mine, module(Error::NotNFTOwner)),
        (signed, 31, true, true, Some(ALICE), None, module(Error::NFTDoesNotExist)),
        (signed, 31, true, true, Some(ALICE), theirs, module(Error::NotNFTOwner)),
    ];
    for (origin, at_origin, current_exists, origin_exists, owner, current, failure) in cases {
        let mut pallet = pallet_for_claims();
        let claimed = pallet.nft_x_claim(
            origin,
            40,
            at_origin,
            32,
            5,
            6,
            current_exists,
            origin_exists,
            owner,
            current,
        );
        assert_eq!(claimed, Err(failure));
        assert!(pallet.received_assets.contains_key(HERE));
    }
}
