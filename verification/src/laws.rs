//! What holds of the pallet over any number of calls.
use vstd::prelude::*;

use crate::arrival::IncomingNft;
use crate::outside::without;
use crate::pallet::{are_kept_by_collection, one_per_collection, Storage};
use crate::proposal::{initiate_failure, vote_failure};
use crate::transfer::{
    after_transfer, distinct, foreign_owners, has_foreign_owner, new_proposal,
    transfer_failure, voters,
};
use crate::types::{
    AccountId, AssetKey, BlockNumber, CollectionConfigFor, CollectionId, CollectionState, Config,
    Error, Failure, ItemState, Origin, ParachainID, ProposalView, Vote,
};

verus! {

/// Every way in which a call changes what the pallet remembers.
#[allow(inconsistent_fields)]
pub enum Operation<'a> {
    Transfer {
        origin: Origin,
        origin_collection: CollectionId,
        collection: Option<CollectionState<'a>>,
        destination_para: ParachainID,
        destination: Option<AccountId>,
        config: CollectionConfigFor,
        block_number: BlockNumber,
    },
    TransferDelivered { collection: CollectionId },
    Vote { origin: Origin, proposal_id: u64, vote: Vote, block_number: BlockNumber },
    Initiate {
        origin: Origin,
        proposal_id: u64,
        collection: Option<CollectionState<'a>>,
        block_number: BlockNumber,
    },
    InitiationDelivered { collection: CollectionId, proposal_id: u64 },
    NftDelivered { asset: AssetKey, destination: AssetKey },
    NftClaimed { current: AssetKey },
    NftReturned { origin: AssetKey },
    NftArrived { incoming: IncomingNft<'a> },
    CollectionArrived {
        collection: CollectionId,
        origin_para: ParachainID,
        origin_collection_id: CollectionId,
    },
}

impl Storage {
    /// What the pallet remembers after an operation.
    pub open spec fn after(self, operation: Operation) -> Storage {
        match operation {
            Operation::Transfer {
                origin,
                origin_collection,
                collection,
                destination_para,
                destination,
                config,
                block_number,
            } => after_transfer(
                self,
                origin,
                origin_collection,
                collection,
                destination_para,
                destination,
                config,
                block_number,
            ),
            Operation::TransferDelivered { collection } => self.without_received_collection(
                collection,
            ),
            Operation::Vote { origin, proposal_id, vote, block_number } => if vote_failure(
                self,
                origin,
                proposal_id,
                vote,
                block_number,
            ) is None {
                self.with_vote(proposal_id, origin->0, vote)
            } else {
                self
            },
            Operation::Initiate { origin, proposal_id, collection, block_number } =>
                if initiate_failure(self, origin, proposal_id, collection, block_number) is None
                && collection->0.items@.len() == 0 {
                self.without_proposal(proposal_id)
            } else {
                self
            },
            Operation::InitiationDelivered { collection, proposal_id } =>
                self.without_received_collection(collection).without_proposal(proposal_id),
            Operation::NftDelivered { asset, destination } => self.with_asset_sent(
                asset,
                destination,
            ),
            Operation::NftClaimed { current } => self.without_received_asset(current),
            Operation::NftReturned { origin } => self.without_sent_asset(origin),
            Operation::NftArrived { incoming } => self.with_received_asset(incoming),
            Operation::CollectionArrived { collection, origin_para, origin_collection_id } =>
                self.with_received_collection(collection, origin_para, origin_collection_id),
        }
    }

    /// What the pallet remembers after a sequence of operations.
    pub open spec fn after_all(self, operations: Seq<Operation>) -> Storage
        decreases operations.len(),
    {
        if operations.len() == 0 {
            self
        } else {
            self.after_all(operations.drop_last()).after(operations.last())
        }
    }
}

/// What is left of a sequence without one account.
proof fn lemma_without(s: Seq<AccountId>, account: AccountId)
    ensures
        forall|a: AccountId| #[trigger]
            without(s, account).contains(a) <==> s.contains(a) && a != account,
        s.no_duplicates() ==> without(s, account).no_duplicates(),
        s.no_duplicates() && s.contains(account) ==> without(s, account).len() == s.len() - 1,
        !s.contains(account) ==> without(s, account) == s,
    decreases s.len(),
{
    reveal(Seq::filter);
    if s.len() > 0 {
        let front = s.drop_last();
        let last = s.last();
        lemma_without(front, account);
        assert(s =~= front.push(last));
        let rest = without(front, account);
        assert forall|a: AccountId| #[trigger] without(s, account).contains(a) <==> s.contains(a)
            && a != account by {
            if s.contains(a) && a != account {
                let i = choose|i: int| 0 <= i < s.len() && s[i] == a;
                if i < front.len() {
                    assert(front[i] == a);
                    assert(rest.contains(a));
                    let k = choose|k: int| 0 <= k < rest.len() && rest[k] == a;
                    assert(without(s, account)[k] == a);
                } else {
                    assert(without(s, account)[rest.len() as int] == a);
                }
            }
            if without(s, account).contains(a) {
                let k = choose|k: int| 0 <= k < without(s, account).len() && without(s, account)[k]
                    == a;
                if k < rest.len() {
                    assert(rest[k] == a);
                    assert(rest.contains(a));
                    let i = choose|i: int| 0 <= i < front.len() && front[i] == a;
                    assert(s[i] == a);
                } else {
                    assert(s[s.len() - 1] == a);
                }
            }
        }
        if s.no_duplicates() {
            assert(front.no_duplicates());
            assert(!front.contains(last));
            if last != account {
                assert(!rest.contains(last));
            }
            if s.contains(account) && last != account {
                let i = choose|i: int| 0 <= i < s.len() && s[i] == account;
                assert(front[i] == account);
            }
        }
        if !s.contains(account) {
            assert(!front.contains(account)) by {
                if front.contains(account) {
                    let i = choose|i: int| 0 <= i < front.len() && front[i] == account;
                    assert(s[i] == account);
                }
            }
            assert(s[s.len() - 1] == last);
        }
    }
}

/// The distinct accounts of a sequence are its accounts, none twice.
pub(crate) proof fn lemma_distinct(s: Seq<AccountId>)
    ensures
        distinct(s).no_duplicates(),
        forall|a: AccountId| #[trigger] distinct(s).contains(a) <==> s.contains(a),
    decreases s.len(),
{
    if s.len() > 0 {
        let front = s.drop_last();
        let last = s.last();
        lemma_distinct(front);
        let before = distinct(front);
        assert forall|a: AccountId| #[trigger] distinct(s).contains(a) <==> s.contains(a) by {
            if s.contains(a) {
                let i = choose|i: int| 0 <= i < s.len() && s[i] == a;
                if i < front.len() {
                    assert(front[i] == a);
                    assert(before.contains(a));
                    let k = choose|k: int| 0 <= k < before.len() && before[k] == a;
                    assert(distinct(s)[k] == a);
                } else if !before.contains(last) {
                    assert(distinct(s)[before.len() as int] == a);
                }
            }
            if distinct(s).contains(a) {
                let k = choose|k: int| 0 <= k < distinct(s).len() && distinct(s)[k] == a;
                if k < before.len() {
                    assert(before[k] == a);
                    assert(before.contains(a));
                    let i = choose|i: int| 0 <= i < front.len() && front[i] == a;
                    assert(s[i] == a);
                } else {
                    assert(s[s.len() - 1] == a);
                }
            }
        }
    }
}

/// The foreign owners of items own one, and are not the owner.
pub(crate) proof fn lemma_foreign_owners(items: Seq<ItemState>, owner: AccountId)
    ensures
        forall|a: AccountId| #[trigger]
            foreign_owners(items, owner).contains(a) <==> a != owner && exists|i: int|
                0 <= i < items.len() && (#[trigger] items[i]).owner == a,
{
    let owners = items.map_values(|item: ItemState| item.owner);
    lemma_without(owners, owner);
    assert forall|a: AccountId| #[trigger] foreign_owners(items, owner).contains(a) <==> a != owner
        && exists|i: int| 0 <= i < items.len() && (#[trigger] items[i]).owner == a by {
        if owners.contains(a) {
            let i = choose|i: int| 0 <= i < owners.len() && owners[i] == a;
            assert(items[i].owner == a);
        }
        if exists|i: int| 0 <= i < items.len() && (#[trigger] items[i]).owner == a {
            let i = choose|i: int| 0 <= i < items.len() && (#[trigger] items[i]).owner == a;
            assert(owners[i] == a);
        }
    }
}

/// A list of voters names nobody twice and is not too long.
pub(crate) proof fn lemma_voters(items: Seq<ItemState>, owner: AccountId, max_owners: u32)
    ensures
        voters(items, owner, max_owners).no_duplicates(),
        voters(items, owner, max_owners).len() <= max_owners,
{
    let foreign = foreign_owners(items, owner);
    lemma_distinct(foreign);
    lemma_foreign_owners(items, owner);
    assert(!distinct(foreign).contains(owner));
    assert(distinct(foreign).push(owner).no_duplicates());
}

/// Distinct accounts that all stand in a list are no more than the list holds.
proof fn lemma_no_more_than(s: Seq<AccountId>, list: Seq<AccountId>)
    requires
        s.no_duplicates(),
        forall|a: AccountId| #[trigger] s.contains(a) ==> list.contains(a),
    ensures
        s.len() <= list.len(),
{
    s.unique_seq_to_set();
    vstd::seq_lib::seq_to_set_is_finite(list);
    assert(s.to_set().subset_of(list.to_set()));
    vstd::set_lib::lemma_len_subset(s.to_set(), list.to_set());
    list.lemma_cardinality_of_set();
}

/// A vote that an owner may cast keeps a fair proposal fair.
proof fn lemma_vote_is_fair(proposal: ProposalView, who: AccountId, vote: Vote, max_owners: u32)
    requires
        proposal.is_fair(max_owners),
        proposal.owners.contains(who),
        !proposal.has_cast(who, vote),
    ensures
        proposal.with_vote(who, vote).is_fair(max_owners),
        forall|a: AccountId| #[trigger]
            proposal.with_vote(who, vote).voters_for(vote).contains(a)
                <==> proposal.voters_for(vote).contains(a) || a == who,
{
    let after = proposal.with_vote(who, vote);
    let chosen = proposal.voters_for(vote);
    lemma_without(proposal.aye, who);
    lemma_without(proposal.nay, who);
    assert(!chosen.contains(who));
    assert forall|a: AccountId| #[trigger] after.voters_for(vote).contains(a) <==> chosen.contains(a)
        || a == who by {
        if chosen.contains(a) {
            let i = choose|i: int| 0 <= i < chosen.len() && chosen[i] == a;
            assert(chosen.push(who)[i] == a);
        }
        if a == who {
            assert(chosen.push(who)[chosen.len() as int] == a);
        }
        if chosen.push(who).contains(a) {
            let i = choose|i: int| 0 <= i < chosen.push(who).len() && chosen.push(who)[i] == a;
            if i < chosen.len() {
                assert(chosen[i] == a);
            }
        }
    }
    assert(chosen.push(who).no_duplicates());
    assert forall|a: AccountId| #[trigger] after.aye.contains(a) implies after.owners.contains(a)
        && !after.nay.contains(a) by {
        match vote {
            Vote::Aye => assert(after.voters_for(vote).contains(a)),
            Vote::Nay => assert(proposal.aye.contains(a) && !after.voters_for(vote).contains(a)),
        }
    }
    assert forall|a: AccountId| #[trigger] after.nay.contains(a) implies after.owners.contains(a) by {
        match vote {
            Vote::Aye => assert(proposal.nay.contains(a)),
            Vote::Nay => assert(after.voters_for(vote).contains(a)),
        }
    }
}

/// At the start, what the pallet remembers is sound.
pub proof fn law_initial_storage_is_sound(config: Config)
    ensures
        Storage::initial(config).is_sound(),
{
}

/// Every operation keeps what the pallet remembers sound: records say what their keys say, no asset
/// is both here and away, proposals stay fair, and no two proposals concern one collection. The
/// settings never change.
pub proof fn law_operations_keep_storage_sound(storage: Storage, operation: Operation)
    requires
        storage.is_sound(),
    ensures
        storage.after(operation).is_sound(),
        storage.after(operation).config == storage.config,
{
    let after = storage.after(operation);
    match operation {
        Operation::Transfer { origin, origin_collection, collection, destination, .. } => {
            let failure = transfer_failure(
                storage,
                origin,
                origin_collection,
                collection,
                destination,
            );
            if failure is None && has_foreign_owner(collection->0.items@, collection->0.owner) {
                lemma_voters(
                    collection->0.items@,
                    collection->0.owner,
                    storage.config.max_owners,
                );
                lemma_one_per_collection(
                    storage.proposals,
                    after.proposals,
                    storage.next_proposal_id,
                );
            }
        },
        Operation::Vote { origin, proposal_id, vote, block_number } => {
            if vote_failure(storage, origin, proposal_id, vote, block_number) is None {
                lemma_vote_is_fair(
                    storage.proposals[proposal_id],
                    origin->0,
                    vote,
                    storage.config.max_owners,
                );
                lemma_one_per_collection(storage.proposals, after.proposals, proposal_id);
            }
        },
        Operation::Initiate { proposal_id, .. } => {
            lemma_one_per_collection(storage.proposals, after.proposals, proposal_id);
        },
        Operation::InitiationDelivered { proposal_id, .. } => {
            lemma_one_per_collection(storage.proposals, after.proposals, proposal_id);
        },
        _ => {},
    }
}

/// What was sound stays so.
pub(crate) proof fn lemma_stays_sound(storage: Storage, operation: Operation)
    ensures
        storage.is_sound() ==> storage.after(operation).is_sound(),
{
    if storage.is_sound() {
        law_operations_keep_storage_sound(storage, operation);
    }
}

/// Where proposals keep their collections, but for one that concerns a collection of its own, no two
/// of them come to concern one collection.
proof fn lemma_one_per_collection(
    before: Map<u64, ProposalView>,
    after: Map<u64, ProposalView>,
    changed: u64,
)
    requires
        one_per_collection(before),
        forall|id: u64| #[trigger]
            after.contains_key(id) && id != changed ==> before.contains_key(id)
                && after[id].collection_id == before[id].collection_id,
        after.contains_key(changed) ==> forall|id: u64|
            before.contains_key(id) && (#[trigger] before[id]).collection_id
                == after[changed].collection_id ==> id == changed,
    ensures
        one_per_collection(after),
{
    assert forall|a: u64, b: u64|
        #![trigger after[a], after[b]]
        after.contains_key(a) && after.contains_key(b) && after[a].collection_id
            == after[b].collection_id implies a == b by {
        if a != changed {
            assert(before[a].collection_id == after[a].collection_id);
        }
        if b != changed {
            assert(before[b].collection_id == after[b].collection_id);
        }
    }
}

/// Whatever has happened, what the pallet remembers is sound.
pub proof fn law_storage_is_always_sound(config: Config, operations: Seq<Operation>)
    ensures
        Storage::initial(config).after_all(operations).is_sound(),
        Storage::initial(config).after_all(operations).config == config,
    decreases operations.len(),
{
    law_initial_storage_is_sound(config);
    if operations.len() > 0 {
        law_storage_is_always_sound(config, operations.drop_last());
        law_operations_keep_storage_sound(
            Storage::initial(config).after_all(operations.drop_last()),
            operations.last(),
        );
    }
}

/// A list of votes is never too full for a vote that an owner may cast.
pub proof fn law_there_is_room_for_every_vote(
    storage: Storage,
    origin: Origin,
    proposal_id: u64,
    vote: Vote,
    block_number: BlockNumber,
)
    requires
        storage.is_sound(),
    ensures
        vote_failure(storage, origin, proposal_id, vote, block_number) != Some(
            Failure::Module(Error::MaxOwnersReached),
        ),
{
    if vote_failure(storage, origin, proposal_id, vote, block_number) == Some(
        Failure::Module(Error::MaxOwnersReached),
    ) {
        let proposal = storage.proposals[proposal_id];
        let after = proposal.with_vote(origin->0, vote);
        lemma_vote_is_fair(proposal, origin->0, vote, storage.config.max_owners);
        lemma_no_more_than(after.voters_for(vote), after.owners);
    }
}

/// The last vote of an account is the one that counts: it replaces an earlier one, it cannot be cast
/// twice, and nobody else's vote is touched.
pub proof fn law_last_vote_counts(
    storage: Storage,
    who: AccountId,
    proposal_id: u64,
    vote: Vote,
    block_number: BlockNumber,
)
    requires
        storage.is_sound(),
        vote_failure(storage, Origin::Signed(who), proposal_id, vote, block_number) is None,
    ensures
        ({
            let before = storage.proposals[proposal_id];
            let voted = storage.with_vote(proposal_id, who, vote);
            let after = voted.proposals[proposal_id];
            &&& after.voters_for(vote).contains(who)
            &&& after.aye.contains(who) != after.nay.contains(who)
            &&& vote_failure(voted, Origin::Signed(who), proposal_id, vote, block_number) == Some(
                Failure::Module(Error::AlreadyVotedThis),
            )
            &&& forall|other: AccountId|
                other != who ==> (#[trigger] after.aye.contains(other) <==> before.aye.contains(
                    other,
                ))
            &&& forall|other: AccountId|
                other != who ==> (#[trigger] after.nay.contains(other) <==> before.nay.contains(
                    other,
                ))
        }),
{
    let before = storage.proposals[proposal_id];
    let after = before.with_vote(who, vote);
    lemma_vote_is_fair(before, who, vote, storage.config.max_owners);
    lemma_without(before.aye, who);
    lemma_without(before.nay, who);
    assert(after.voters_for(vote).contains(who));
    assert forall|other: AccountId| other != who implies (#[trigger] after.aye.contains(other)
        <==> before.aye.contains(other)) by {
        if vote == Vote::Aye {
            assert(after.voters_for(vote).contains(other) <==> before.aye.contains(other));
        }
    }
    assert forall|other: AccountId| other != who implies (#[trigger] after.nay.contains(other)
        <==> before.nay.contains(other)) by {
        if vote == Vote::Nay {
            assert(after.voters_for(vote).contains(other) <==> before.nay.contains(other));
        }
    }
}

/// An account counts once, however often it changes its mind: a first vote adds one to the number of
/// votes, a changed one adds none, and there are never more votes than owners.
pub proof fn law_every_owner_counts_once(
    proposal: ProposalView,
    max_owners: u32,
    who: AccountId,
    vote: Vote,
)
    requires
        proposal.is_fair(max_owners),
        proposal.owners.contains(who),
        !proposal.has_cast(who, vote),
    ensures
        ({
            let after = proposal.with_vote(who, vote);
            let has_voted = proposal.aye.contains(who) || proposal.nay.contains(who);
            after.aye.len() + after.nay.len() == proposal.aye.len() + proposal.nay.len() + if has_voted {
                0int
            } else {
                1int
            }
        }),
        proposal.aye.len() + proposal.nay.len() <= proposal.owners.len(),
{
    lemma_without(proposal.aye, who);
    lemma_without(proposal.nay, who);
    let all = proposal.aye + proposal.nay;
    assert(all.no_duplicates()) by {
        assert forall|i: int, j: int| 0 <= i < all.len() && 0 <= j < all.len() && i
            != j implies all[i] != all[j] by {
            let n = proposal.aye.len();
            if i < n && j >= n {
                assert(proposal.aye.contains(proposal.aye[i]));
                assert(proposal.nay.contains(proposal.nay[j - n]));
            } else if i >= n && j < n {
                assert(proposal.aye.contains(proposal.aye[j]));
                assert(proposal.nay.contains(proposal.nay[i - n]));
            }
        }
    }
    assert forall|a: AccountId| #[trigger] all.contains(a) implies proposal.owners.contains(a) by {
        let i = choose|i: int| 0 <= i < all.len() && all[i] == a;
        let n = proposal.aye.len();
        if i < n {
            assert(proposal.aye.contains(proposal.aye[i]));
        } else {
            assert(proposal.nay.contains(proposal.nay[i - n]));
        }
    }
    lemma_no_more_than(all, proposal.owners);
}

/// A proposal is carried exactly when somebody voted and there are no more nays than ayes. So it is
/// never carried while less than half of the votes are ayes, and some aye is always needed.
pub proof fn law_when_a_proposal_passes(proposal: ProposalView)
    ensures
        proposal.is_passed() <==> proposal.aye.len() + proposal.nay.len() > 0 && proposal.nay.len()
            <= proposal.aye.len(),
        2 * proposal.aye.len() < proposal.aye.len() + proposal.nay.len() ==> !proposal.is_passed(),
        proposal.is_passed() ==> proposal.aye.len() > 0,
{
}

/// At every time a proposal can be voted on or carried out: it is too late for a vote only when it is
/// not too early to carry the proposal out.
pub proof fn law_voting_meets_initiation(
    storage: Storage,
    voter: Origin,
    initiator: Origin,
    proposal_id: u64,
    vote: Vote,
    collection: Option<CollectionState>,
    block_number: BlockNumber,
)
    ensures
        vote_failure(storage, voter, proposal_id, vote, block_number) == Some(
            Failure::Module(Error::ProposalExpired),
        ) ==> initiate_failure(storage, initiator, proposal_id, collection, block_number) != Some(
            Failure::Module(Error::ProposalStillActive),
        ),
{
}

/// A transfer that is refused changes nothing.
pub proof fn law_refused_transfer_changes_nothing(
    storage: Storage,
    origin: Origin,
    origin_collection: CollectionId,
    collection: Option<CollectionState>,
    destination_para: ParachainID,
    destination: Option<AccountId>,
    config: CollectionConfigFor,
    block_number: BlockNumber,
)
    requires
        transfer_failure(storage, origin, origin_collection, collection, destination) is Some,
    ensures
        after_transfer(
            storage,
            origin,
            origin_collection,
            collection,
            destination_para,
            destination,
            config,
            block_number,
        ) == storage,
{
}

/// A transfer, whatever becomes of it, leaves every proposal under its own identifier and at most one
/// proposal for each collection.
pub proof fn law_transfer_keeps_one_proposal_per_collection(
    storage: Storage,
    origin: Origin,
    origin_collection: CollectionId,
    collection: Option<CollectionState>,
    destination_para: ParachainID,
    destination: Option<AccountId>,
    config: CollectionConfigFor,
    block_number: BlockNumber,
)
    requires
        are_kept_by_collection(storage.proposals),
    ensures
        are_kept_by_collection(
            after_transfer(
                storage,
                origin,
                origin_collection,
                collection,
                destination_para,
                destination,
                config,
                block_number,
            ).proposals,
        ),
{
    let after = after_transfer(
        storage,
        origin,
        origin_collection,
        collection,
        destination_para,
        destination,
        config,
        block_number,
    );
    if after.proposals != storage.proposals {
        lemma_one_per_collection(storage.proposals, after.proposals, storage.next_proposal_id);
    }
}

/// Where no more accounts own items than may be listed, exactly the owners of the items and the
/// owner of the collection may vote.
pub proof fn law_owners_may_vote(
    items: Seq<ItemState>,
    owner: AccountId,
    max_owners: u32,
    account: AccountId,
)
    requires
        distinct(foreign_owners(items, owner)).len() < max_owners,
    ensures
        voters(items, owner, max_owners).contains(account) <==> account == owner || exists|i: int|
            0 <= i < items.len() && (#[trigger] items[i]).owner == account,
{
    let foreign = foreign_owners(items, owner);
    lemma_distinct(foreign);
    lemma_foreign_owners(items, owner);
    let all = distinct(foreign);
    if account == owner {
        assert(voters(items, owner, max_owners)[all.len() as int] == owner);
    } else {
        assert(voters(items, owner, max_owners).contains(account) <==> all.contains(account)) by {
            if all.contains(account) {
                let k = choose|k: int| 0 <= k < all.len() && all[k] == account;
                assert(voters(items, owner, max_owners)[k] == account);
            }
            if voters(items, owner, max_owners).contains(account) {
                let k = choose|k: int|
                    0 <= k < voters(items, owner, max_owners).len() && voters(items, owner, max_owners)[k] == account;
                assert(all[k] == account);
            }
        }
    }
}

/// Whoever may vote on a proposal that was just made can do so, either way, until its time is over.
pub proof fn law_voters_can_vote(
    storage: Storage,
    origin_collection: CollectionId,
    owner: AccountId,
    items: Seq<ItemState>,
    destination_para: ParachainID,
    destination: AccountId,
    config: CollectionConfigFor,
    made_at: BlockNumber,
    voter: AccountId,
    vote: Vote,
    block_number: BlockNumber,
)
    requires
        voters(items, owner, storage.config.max_owners).contains(voter),
        block_number <= made_at + storage.config.proposal_time_in_blocks,
        made_at + storage.config.proposal_time_in_blocks <= u64::MAX,
    ensures
        vote_failure(
            storage.with_proposal(
                new_proposal(
                    storage,
                    origin_collection,
                    owner,
                    items,
                    destination_para,
                    destination,
                    config,
                    made_at,
                ),
            ),
            Origin::Signed(voter),
            storage.next_proposal_id,
            vote,
            block_number,
        ) is None,
{
}

/// While the identifiers of proposals have not begun anew, a proposal never takes the place of
/// another one.
pub proof fn law_new_proposal_replaces_none(storage: Storage, proposal: ProposalView)
    requires
        forall|id: u64| #[trigger] storage.proposals.contains_key(id) ==> id < storage.next_proposal_id,
        storage.next_proposal_id < u64::MAX,
    ensures
        ({
            let after = storage.with_proposal(proposal);
            &&& !storage.proposals.contains_key(storage.next_proposal_id)
            &&& forall|id: u64| #[trigger]
                storage.proposals.contains_key(id) ==> after.proposals.contains_key(id)
                    && after.proposals[id] == storage.proposals[id]
            &&& forall|id: u64| #[trigger]
                after.proposals.contains_key(id) ==> id < after.next_proposal_id
        }),
{
}

/// A proposal is carried out once: afterwards it can neither be carried out again nor be voted on.
pub proof fn law_proposal_is_carried_out_once(
    storage: Storage,
    collection_id: CollectionId,
    proposal_id: u64,
    who: AccountId,
    vote: Vote,
    collection: Option<CollectionState>,
    block_number: BlockNumber,
)
    ensures
        ({
            let after = storage.after(
                Operation::InitiationDelivered { collection: collection_id, proposal_id },
            );
            let gone = Some(Failure::Module(Error::ProposalDoesNotExist));
            &&& initiate_failure(
                after,
                Origin::Signed(who),
                proposal_id,
                collection,
                block_number,
            ) == gone
            &&& vote_failure(after, Origin::Signed(who), proposal_id, vote, block_number) == gone
        }),
{
}

} // verus!
