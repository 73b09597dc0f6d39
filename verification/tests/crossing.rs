use xcnft::arrival::{ArrivalStep, IncomingCollection, IncomingItems, NftArrival};
use xcnft::message::{Call, Caller, Dispatch, NftsCall, RemoteCall};
use xcnft::pallet::Pallet;
use xcnft::proposal::Initiation;
use xcnft::transfer::CollectionTransfer;
use xcnft::types::{
    AccountId, Address, AssetKey, CollectionConfigFor, CollectionState, Config, ItemState, Origin,
    ReceivedCols, ReceivedStruct, Vote,
};

const ALICE: AccountId = AccountId { high: 0, low: 1 };
const BOB: AccountId = AccountId { high: 0, low: 2 };

fn chain(parachain_id: u32) -> Pallet {
    Pallet::new(Config { proposal_time_in_blocks: 100, max_owners: 255, parachain_id })
}

fn item(id: u32, metadata: Option<&[u8]>) -> ItemState<'_> {
    ItemState { id, owner: ALICE, metadata, depositor: None, deposit: None }
}

#[test]
fn item_arrives_as_sent() {
    let sender = chain(2000);
    let mut receiver = chain(2001);
    let (message, _) = sender
        .nft_x_transfer(
            Origin::Signed(ALICE),
            5,
            6,
            2001,
            Address::Account(BOB),
            15,
            16,
            true,
            Some(item(6, Some(b"x"))),
        )
        .unwrap();
    let arrival = match message.transact.call {
        RemoteCall::XcNft(Call::ParseNftTransfer {
            owner,
            collection,
            item,
            data,
            mint_to,
            origin_collection,
            origin_item,
            origin_chain,
        }) => receiver.parse_nft_transfer(
            owner,
            collection,
            item,
            data,
            mint_to,
            origin_collection,
            origin_item,
            origin_chain,
            Some(ALICE),
            false,
            Some(ALICE),
        ),
        other => panic!("{:?}", other),
    };
    let (mint, incoming) = match arrival {
        Ok(NftArrival::New { mint, incoming, .. }) => (mint, incoming),
        other => panic!("{:?}", other),
    };
    assert_eq!(
        mint.dispatch.call,
        NftsCall::Mint { collection: 15, item: 16, mint_to: Address::Account(BOB) }
    );
    assert_eq!(incoming.data, b"x");
    let received = receiver.parse_nft_transfer_minted(incoming, Ok(()), Ok(()), true);
    assert!(received.is_ok());
    assert_eq!(
        receiver.received_assets.get(AssetKey { collection: 15, item: 16 }),
        Some(&ReceivedStruct {
            origin_para_id: 2000,
            origin_collection_id: 5,
            origin_asset_id: 6,
            received_collection_id: 15,
            received_asset_id: 16,
        })
    );
}

#[test]
fn collection_arrives_as_sent() {
    let mut sender = chain(2000);
    let mut receiver = chain(2001);
    let items = [item(3, Some(b"three")), item(1, None), item(2, Some(b"two"))];
    let state = CollectionState { owner: ALICE, metadata: Some(b"meta"), items: &items };
    let sent = sender.collection_x_transfer(
        Origin::Signed(ALICE),
        5,
        2001,
        Address::Account(BOB),
        CollectionConfigFor::default(),
        Some(state),
        None,
        1,
    );
    let message = match sent {
        Ok(CollectionTransfer::Send { message, .. }) => message,
        other => panic!("{:?}", other),
    };
    let call = match message.transact.call {
        RemoteCall::XcNft(call) => call,
        other => panic!("{:?}", other),
    };
    if let Call::ParseCollectionSameOwner {
        owner,
        collection_metadata,
        nfts,
        origin_para,
        origin_collection_id,
        ..
    } = &call
    {
        let incoming = IncomingCollection {
            owner: *owner,
            collection_metadata,
            nfts: IncomingItems::SameOwner(nfts),
            origin_para: *origin_para,
            origin_collection_id: *origin_collection_id,
        };
        let (_, mut arrival) = Pallet::parse_collection_created(
            incoming,
            BOB,
            9,
            Ok(()),
            &[BOB],
            Some(10),
        )
        .unwrap();
        let mut minted = Vec::new();
        while let ArrivalStep::Mint { mint, set_metadata } =
            receiver.parse_collection_next(arrival)
        {
            minted.push((mint.dispatch.call, set_metadata.map(|set| set.dispatch.call)));
            arrival = arrival.item_minted(Ok(()), Ok(()), true).unwrap().1;
        }
        let mint = |item: u32| NftsCall::Mint {
            collection: 9,
            item,
            mint_to: Address::Account(BOB),
        };
        assert_eq!(
            minted,
            vec![
                (
                    mint(3),
                    Some(NftsCall::SetMetadata { collection: 9, item: 3, data: b"three" })
                ),
                (mint(1), None),
                (mint(2), Some(NftsCall::SetMetadata { collection: 9, item: 2, data: b"two" })),
            ]
        );
        assert_eq!(
            receiver.received_collections.get(9),
            Some(&ReceivedCols {
                origin_para_id: 2000,
                origin_collection_id: 5,
                received_collection_id: 9,
            })
        );
    } else {
        panic!("{:?}", call);
    }
}

#[test]
fn collection_of_several_owners_arrives_as_sent() {
    let mut sender = chain(2000);
    let mut receiver = chain(2001);
    let mut items = [item(3, Some(b"three")), item(1, None)];
    items[1].owner = BOB;
    let state = CollectionState { owner: ALICE, metadata: Some(b"meta"), items: &items };
    let proposed = sender.collection_x_transfer(
        Origin::Signed(ALICE),
        5,
        2001,
        Address::Account(BOB),
        CollectionConfigFor::default(),
        Some(state),
        Some(BOB),
        1,
    );
    assert!(matches!(proposed, Ok(CollectionTransfer::Proposed(_))));
    assert!(sender.collection_x_transfer_vote(Origin::Signed(BOB), 0, Vote::Aye, 2).is_ok());
    let initiation =
        sender.collection_x_transfer_initiate(Origin::Signed(ALICE), 0, Some(state), 101);
    let message = match initiation {
        Ok(Initiation::Send { message, .. }) => message,
        other => panic!("{:?}", other),
    };
    let (owner, collection_metadata, nfts, origin_para, origin_collection_id) =
        match message.transact.call {
            RemoteCall::XcNft(Call::ParseCollectionMultipleOwners {
                owner,
                collection_metadata,
                nfts,
                origin_para,
                origin_collection_id,
                ..
            }) => (owner, collection_metadata, nfts, origin_para, origin_collection_id),
            other => panic!("{:?}", other),
        };
    let incoming = IncomingCollection {
        owner,
        collection_metadata,
        nfts: IncomingItems::MultipleOwners(&nfts),
        origin_para,
        origin_collection_id,
    };
    let (set_metadata, mut arrival) =
        Pallet::parse_collection_created(incoming, BOB, 9, Ok(()), &[BOB], Some(10)).unwrap();
    assert_eq!(
        set_metadata.map(|set| set.dispatch.call),
        Some(NftsCall::SetCollectionMetadata { collection: 9, data: b"meta" })
    );
    let mut minted = Vec::new();
    while let ArrivalStep::Mint { mint, set_metadata } = receiver.parse_collection_next(arrival) {
        minted.push((mint.dispatch.call, set_metadata.map(|set| set.dispatch.call)));
        arrival = arrival.item_minted(Ok(()), Ok(()), true).unwrap().1;
    }
    assert_eq!(
        minted,
        vec![
            (
                NftsCall::Mint { collection: 9, item: 3, mint_to: Address::Account(ALICE) },
                Some(NftsCall::SetMetadata { collection: 9, item: 3, data: b"three" })
            ),
            (
                NftsCall::Mint { collection: 9, item: 1, mint_to: Address::Account(BOB) },
                None
            ),
        ]
    );
    assert_eq!(
        receiver.received_collections.get(9),
        Some(&ReceivedCols {
            origin_para_id: 2000,
            origin_collection_id: 5,
            received_collection_id: 9,
        })
    );
}

#[test]
fn change_is_made_as_who_asked() {
    let request = Pallet::nft_x_burn(Origin::Signed(ALICE), 5, 6, 2001).unwrap();
    match request.message.transact.call {
        RemoteCall::XcNft(Call::ParseNftBurn { owner, collection, item }) => {
            assert_eq!(owner, Address::Account(ALICE));
            let burn = Pallet::parse_nft_burn(owner, collection, item, Some(ALICE)).unwrap();
            assert_eq!(
                burn.dispatch,
                Dispatch {
                    origin: Caller::Signed(ALICE),
                    call: NftsCall::Burn { collection: 5, item: 6 },
                }
            );
        }
        other => panic!("{:?}", other),
    }
}
