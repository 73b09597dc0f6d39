use xcnft::pallet::Pallet;
use xcnft::proposal::Initiation;
use xcnft::transfer::CollectionTransfer;
use xcnft::types::{
    AccountId, Address, AssetKey, CollectionConfigFor, CollectionState, Config, Error, Failure,
    ItemState, Origin, Vote,
};

const ALICE: AccountId = AccountId { high: 0, low: 1 };
const BOB: AccountId = AccountId { high: 0, low: 2 };

fn pallet() -> Pallet {
    Pallet::new(Config { proposal_time_in_blocks: 100, max_owners: 255, parachain_id: 2000 })
}

fn owned(owners: &[AccountId]) -> Vec<ItemState<'static>> {
    let mut items = Vec::new();
    for (n, owner) in owners.iter().enumerate() {
        items.push(ItemState {
            id: n as u32,
            owner: *owner,
            metadata: None,
            depositor: None,
            deposit: None,
        });
    }
    items
}

fn propose(pallet: &mut Pallet, collection: u32, owners: &[AccountId]) {
    let items = owned(owners);
    let state = CollectionState { owner: ALICE, metadata: None, items: &items };
    let r = pallet.collection_x_transfer(
        Origin::Signed(ALICE),
        collection,
        2001,
        Address::Account(BOB),
        CollectionConfigFor::default(),
        Some(state),
        Some(BOB),
        7,
    );
    assert!(matches!(r, Ok(CollectionTransfer::Proposed(_))));
}

#[test]
fn there_is_room_for_every_vote() {
    let mut owners = Vec::new();
    for n in 0..254u128 {
        owners.push(AccountId { high: 1, low: n });
    }
    let mut pallet = pallet();
    propose(&mut pallet, 5, &owners);
    owners.push(ALICE);
    for vote in [Vote::Aye, Vote::Nay, Vote::Aye] {
        for owner in &owners {
            let r = pallet.collection_x_transfer_vote(Origin::Signed(*owner), 0, vote, 8);
            assert!(r.is_ok());
        }
        let votes = &pallet.cross_chain_proposals.get(0).unwrap().number_of_votes;
        let (chosen, other) = match vote {
            Vote::Aye => (&votes.aye, &votes.nay),
            Vote::Nay => (&votes.nay, &votes.aye),
        };
        assert_eq!(chosen.to_vec(), owners);
        assert_eq!(other.len(), 0);
    }
}

#[test]
fn proposals_stand_side_by_side() {
    let mut pallet = pallet();
    propose(&mut pallet, 5, &[BOB]);
    propose(&mut pallet, 6, &[BOB]);
    assert_eq!(pallet.next_proposal_id, 2);
    assert_eq!(pallet.cross_chain_proposals.get(0).unwrap().collection_id, 5);
    assert_eq!(pallet.cross_chain_proposals.get(1).unwrap().collection_id, 6);
    for id in [0, 1] {
        assert_eq!(pallet.cross_chain_proposals.get(id).unwrap().proposal_id, id);
    }
}

#[test]
fn proposal_is_carried_out_once() {
    let mut pallet = pallet();
    propose(&mut pallet, 5, &[BOB]);
    let voted = pallet.collection_x_transfer_vote(Origin::Signed(BOB), 0, Vote::Aye, 8);
    assert!(voted.is_ok());
    let items = owned(&[BOB]);
    let state = CollectionState { owner: ALICE, metadata: None, items: &items };
    let initiation =
        pallet.collection_x_transfer_initiate(Origin::Signed(ALICE), 0, Some(state), 107);
    let pending = match initiation {
        Ok(Initiation::Send { pending, .. }) => pending,
        other => panic!("{:?}", other),
    };
    pallet.collection_x_transfer_initiate_sent(pending, Ok(()), None);
    let gone = Some(Failure::Module(Error::ProposalDoesNotExist));
    let again =
        pallet.collection_x_transfer_initiate(Origin::Signed(ALICE), 0, Some(state), 108);
    assert_eq!(again.err(), gone);
    let late = pallet.collection_x_transfer_vote(Origin::Signed(BOB), 0, Vote::Nay, 107);
    assert_eq!(late.err(), gone);
}

#[test]
fn no_asset_is_both_here_and_away() {
    let asset = AssetKey { collection: 5, item: 6 };
    let mut pallet = pallet();
    for _ in 0..2 {
        // It arrives from chain 3000, and moves on.
        let arrival = pallet.parse_nft_transfer(
            Address::Account(ALICE),
            5,
            6,
            b"",
            Address::Account(BOB),
            31,
            32,
            3000,
            Some(ALICE),
            false,
            Some(ALICE),
        );
        let incoming = match arrival {
            Ok(xcnft::arrival::NftArrival::New { incoming, .. }) => incoming,
            other => panic!("{:?}", other),
        };
        let received = pallet.parse_nft_transfer_minted(incoming, Ok(()), Ok(()), true);
        assert!(received.is_ok());
        assert!(pallet.received_assets.contains_key(asset));
        assert!(!pallet.sent_assets.contains_key(asset));

        let item = ItemState { id: 6, owner: BOB, metadata: None, depositor: None, deposit: None };
        let (_, pending) = pallet
            .nft_x_transfer(
                Origin::Signed(BOB),
                5,
                6,
                3000,
                Address::Account(ALICE),
                31,
                32,
                true,
                Some(item),
            )
            .unwrap();
        pallet.nft_x_transfer_sent(pending, Ok(()));
        assert!(!pallet.received_assets.contains_key(asset));
        assert_eq!(pallet.sent_assets.get(asset).unwrap().origin_para_id, 3000);
    }
}
