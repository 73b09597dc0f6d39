//! What the library takes from the FRAME and XCM crates, and what it relies on there.
//!
//! Everything in this file is believed rather than proved: the declared types are carried through
//! without being looked into, and each wrapper's contract is what its documentation says.
use frame_support::traits::ConstU32;
use frame_support::traits::Incrementable;
use frame_support::BoundedVec;
use vstd::prelude::*;

use crate::types::{AccountId, CollectionId};

verus! {

/// How many accounts a list can hold, whatever the chain allows: as many as a chain can allow at
/// most.
pub const LIST_BOUND: u32 = 4_294_967_295;

/// A list of accounts that never holds more than [`LIST_BOUND`] of them.
pub type AccountList = BoundedVec<AccountId, ConstU32<LIST_BOUND>>;

/// `frame_support::BoundedVec`, a vector with a bound in its type.
#[verifier::external_type_specification]
#[verifier::external_body]
#[verifier::reject_recursive_types(T)]
#[verifier::reject_recursive_types(S)]
pub struct ExBoundedVec<T, S>(BoundedVec<T, S>);

/// `frame_support::traits::ConstU32`, the bound of such a vector.
#[verifier::external_type_specification]
#[verifier::external_body]
pub struct ExConstU32<const T: u32>(ConstU32<T>);

/// `staging_xcm::latest::SendError`, why a message could not be sent.
#[verifier::external_type_specification]
#[verifier::external_body]
pub struct ExSendError(staging_xcm::latest::SendError);

/// `sp_runtime::DispatchError`, why a call into another pallet failed.
#[verifier::external_type_specification]
#[verifier::external_body]
pub struct ExDispatchError(sp_runtime::DispatchError);

/// `frame_support::dispatch::PostDispatchInfo`, the weight that a failed call reports.
#[verifier::external_type_specification]
#[verifier::external_body]
pub struct ExPostDispatchInfo(frame_support::dispatch::PostDispatchInfo);

/// `pallet_nfts::CollectionConfig`, the settings with which a collection is created.
#[verifier::external_type_specification]
#[verifier::external_body]
#[verifier::reject_recursive_types(P)]
#[verifier::reject_recursive_types(B)]
#[verifier::reject_recursive_types(C)]
pub struct ExCollectionConfig<P, B, C>(pallet_nfts::CollectionConfig<P, B, C>);

/// `pallet_nfts::DestroyWitness`, what the destroyer of a collection knows about it.
#[verifier::external_type_specification]
#[verifier::external_body]
pub struct ExDestroyWitness(pallet_nfts::DestroyWitness);

/// The accounts that a list holds, in order.
pub uninterp spec fn accounts(list: AccountList) -> Seq<AccountId>;

/// `BoundedVec::new`: a list without accounts.
#[verifier::external_body]
pub(crate) fn no_accounts() -> (r: AccountList)
    ensures
        accounts(r) == Seq::<AccountId>::empty(),
{
    BoundedVec::new()
}

/// `BoundedVec::try_push`: appends the account if the list is below its bound, and otherwise hands
/// it back and leaves the list alone.
#[verifier::external_body]
pub(crate) fn try_push(list: &mut AccountList, account: AccountId) -> (r: Result<(), AccountId>)
    ensures
        r is Ok == (accounts(*old(list)).len() < LIST_BOUND),
        r is Err ==> r->Err_0 == account,
        accounts(*final(list)) == if r is Ok {
            accounts(*old(list)).push(account)
        } else {
            accounts(*old(list))
        },
{
    list.try_push(account)
}

/// Whether two accounts differ.
pub fn differ(a: &AccountId, b: &AccountId) -> (r: bool)
    ensures
        r == (*a != *b),
{
    *a != *b
}

/// The accounts of a sequence other than `account`, in order.
pub open spec fn without(s: Seq<AccountId>, account: AccountId) -> Seq<AccountId> {
    s.filter(|a: AccountId| a != account)
}

/// `BoundedVec::retain`: keeps, in order, the accounts other than `account`.
#[verifier::external_body]
pub(crate) fn retain_others(list: &mut AccountList, account: AccountId)
    ensures
        accounts(*final(list)) == without(accounts(*old(list)), account),
{
    list.retain(|a| differ(a, &account))
}

/// `BoundedVec::deref` and `Vec::as_slice`: the accounts of a list, in order. No list holds more than
/// its bound.
#[verifier::external_body]
pub(crate) fn as_slice(list: &AccountList) -> (r: &[AccountId])
    ensures
        r@ == accounts(*list),
        r@.len() <= LIST_BOUND,
{
    list.as_slice()
}

/// `Incrementable::initial_value` of a collection identifier: the first one is zero.
#[verifier::external_body]
pub(crate) fn initial_collection_id() -> (r: Option<CollectionId>)
    ensures
        r == Some(0u32),
{
    <CollectionId as Incrementable>::initial_value()
}

/// `Incrementable::increment` of a collection identifier: the next one, or the largest one again.
#[verifier::external_body]
pub(crate) fn increment(id: CollectionId) -> (r: Option<CollectionId>)
    ensures
        r == Some(if id < u32::MAX { (id + 1) as u32 } else { id }),
{
    id.increment()
}

} // verus!
