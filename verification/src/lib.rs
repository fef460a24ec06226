//! A per-owner wishlist of vehicles with metered-storage settlement.
//!
//! Every caller owns one ordered wishlist. The [`Wishlist`] contract appends
//! to it, reads it page by page and removes from it by position, and settles
//! with the caller the storage that a change took or gave back.
//!
//! The host that runs the contract is not reached from here. What it knows
//! (who calls, what they attached, how many bytes are in use) comes in as
//! arguments, and what it is to do (credit an account) goes out as a
//! [`Transfer`](storage::Transfer).

use vstd::prelude::*;

pub mod error;
pub mod registry;
pub mod storage;
pub mod user;
pub mod vehicle;

use crate::error::WishlistError;
use crate::registry::{collection_of, Registry};
use crate::storage::{
    charge_on_growth, charge_outcome, refund_on_shrink, refund_outcome, Transfer, TransferView,
    STORAGE_PRICE_PER_BYTE,
};
use crate::user::page_of;
use crate::vehicle::{vehicle_views, Vehicle, VehicleView};

verus! {

/// The registry after `owner` has added `item`: the item stands at the end of
/// the owner's wishlist, which is created if the owner had none.
pub open spec fn after_add(
    registry: Map<Seq<char>, Seq<VehicleView>>,
    owner: Seq<char>,
    item: VehicleView,
) -> Map<Seq<char>, Seq<VehicleView>> {
    registry.insert(owner, collection_of(registry, owner).push(item))
}

/// The registry after `owner` has added each of `items`, first to last.
pub open spec fn after_adds(
    registry: Map<Seq<char>, Seq<VehicleView>>,
    owner: Seq<char>,
    items: Seq<VehicleView>,
) -> Map<Seq<char>, Seq<VehicleView>>
    decreases items.len(),
{
    if items.len() == 0 {
        registry
    } else {
        after_add(after_adds(registry, owner, items.drop_last()), owner, items.last())
    }
}

/// What settling an addition yields at the host's price per byte: the credit
/// owed to `signer`, if the payment exceeded the cost, or the reason for which
/// the call is rejected.
pub open spec fn payment_outcome(
    signer: Seq<char>,
    initial_storage: u64,
    current_storage: u64,
    attached_storage_cost: u128,
) -> Result<Option<TransferView>, WishlistError> {
    match charge_outcome(
        initial_storage,
        current_storage,
        STORAGE_PRICE_PER_BYTE,
        attached_storage_cost,
    ) {
        Ok(excess) => if excess > 0 {
            Ok(Some(TransferView { to: signer, amount: excess }))
        } else {
            Ok(None)
        },
        Err(error) => Err(error),
    }
}

/// What settling a removal yields at the host's price per byte: the credit
/// owed to `signer`, or `ArithmeticOverflow`.
pub open spec fn release_outcome(
    signer: Seq<char>,
    initial_storage: u64,
    current_storage: u64,
) -> Result<TransferView, WishlistError> {
    match refund_outcome(initial_storage, current_storage, STORAGE_PRICE_PER_BYTE) {
        Ok(refund) => Ok(TransferView { to: signer, amount: refund }),
        Err(error) => Err(error),
    }
}

/// The value of what [`Wishlist::pay_for_storage`] returns.
pub open spec fn payment_view(settled: Result<Option<Transfer>, WishlistError>) -> Result<
    Option<TransferView>,
    WishlistError,
> {
    match settled {
        Ok(Some(transfer)) => Ok(Some(transfer@)),
        Ok(None) => Ok(None),
        Err(error) => Err(error),
    }
}

/// The value of what [`Wishlist::refund_storage_cost`] returns.
pub open spec fn release_view(settled: Result<Transfer, WishlistError>) -> Result<
    TransferView,
    WishlistError,
> {
    match settled {
        Ok(transfer) => Ok(transfer@),
        Err(error) => Err(error),
    }
}

/// The contract: every owner's wishlist, by owner.
pub struct Wishlist {
    users: Registry,
}

impl View for Wishlist {
    type V = Map<Seq<char>, Seq<VehicleView>>;

    closed spec fn view(&self) -> Map<Seq<char>, Seq<VehicleView>> {
        self.users@
    }
}

impl Default for Wishlist {
    /// A contract in which no owner has a wishlist yet.
    fn default() -> (contract: Self)
        ensures
            contract@ == Map::<Seq<char>, Seq<VehicleView>>::empty(),
    {
        Wishlist { users: Registry::new() }
    }
}

impl Wishlist {
    /// Adds a vehicle to the wishlist of `signer`, which is created on the
    /// signer's first addition.
    ///
    /// The addition is stored when this returns. The host then measures the
    /// storage in use and the caller settles with
    /// [`pay_for_storage`](Wishlist::pay_for_storage); a payment that is
    /// rejected there does not take the vehicle out again.
    pub fn add_car(
        &mut self,
        signer: &String,
        image: String,
        name: String,
        model: String,
        mileage: u64,
        year: String,
        price_bits: u64,
    )
        ensures
            final(self)@ == after_add(
                old(self)@,
                signer@,
                (VehicleView {
                    image: image@,
                    name: name@,
                    model: model@,
                    mileage,
                    year: year@,
                    price_bits,
                }),
            ),
            final(self)@.dom() == old(self)@.dom().insert(signer@),
    {
        let mut user = self.users.get_or_create(signer);
        user.add(image, name, model, mileage, year, price_bits);
        self.users.put(signer, user);
    }

    /// A page of the wishlist of `signer`: up to `limit` vehicles beginning at
    /// offset `start`, in the order in which they were added. A signer without
    /// a wishlist, and an offset at or past the end, give an empty page. The
    /// result is always `Some`.
    pub fn read_wishlist(&self, signer: &String, start: u32, limit: u32) -> (listed: Option<
        Vec<Vehicle>,
    >)
        ensures
            listed is Some,
            vehicle_views(listed->0@) == page_of(
                collection_of(self@, signer@),
                start as nat,
                limit as nat,
            ),
            forall|i: int|
                0 <= i < listed->0@.len() ==> (#[trigger] listed->0@[i])@ == collection_of(
                    self@,
                    signer@,
                )[start + i],
            start >= collection_of(self@, signer@).len() ==> listed->0@.len() == 0,
            start <= collection_of(self@, signer@).len() < start + limit ==> listed->0@.len()
                == collection_of(self@, signer@).len() - start,
            start + limit <= collection_of(self@, signer@).len() ==> listed->0@.len() == limit,
    {
        match self.users.get(signer) {
            Some(user) => Some(user.show(start, limit)),
            None => Some(Vec::new()),
        }
    }

    /// Removes the vehicle at position `id` from the wishlist of `signer` and
    /// returns it; the vehicles after it move down by one position.
    ///
    /// A signer without a wishlist gets `Ok(None)`. A position at or past the
    /// end is `InvalidIndex`. In both cases nothing is changed. A wishlist
    /// that is emptied keeps its entry.
    ///
    /// After a removal the host measures the storage in use and the caller
    /// settles with [`refund_storage_cost`](Wishlist::refund_storage_cost).
    pub fn delete_car(&mut self, signer: &String, id: u64) -> (deleted: Result<
        Option<Vehicle>,
        WishlistError,
    >)
        ensures
            final(self)@.dom() == old(self)@.dom(),
            !old(self)@.dom().contains(signer@) ==> ({
                &&& deleted == Ok::<Option<Vehicle>, WishlistError>(None)
                &&& final(self)@ == old(self)@
            }),
            old(self)@.dom().contains(signer@) && id >= old(self)@[signer@].len() ==> ({
                &&& deleted == Err::<Option<Vehicle>, WishlistError>(WishlistError::InvalidIndex)
                &&& final(self)@ == old(self)@
            }),
            old(self)@.dom().contains(signer@) && id < old(self)@[signer@].len() ==> ({
                &&& deleted is Ok
                &&& deleted->Ok_0 is Some
                &&& deleted->Ok_0->0@ == old(self)@[signer@][id as int]
                &&& final(self)@ == old(self)@.insert(
                    signer@,
                    old(self)@[signer@].remove(id as int),
                )
            }),
    {
        match self.users.get(signer) {
            Some(user) => {
                let mut user = user;
                match user.remove(id) {
                    Ok(vehicle) => {
                        self.users.put(signer, user);
                        Ok(Some(vehicle))
                    },
                    Err(error) => Err(error),
                }
            },
            None => Ok(None),
        }
    }

    /// Settles the storage that an addition took, at the host's price per
    /// byte, against the payment attached to the call.
    ///
    /// `initial_storage` and `current_storage` are the bytes in use before and
    /// after the wishlist was stored. A payment below the cost is
    /// `InsufficientFunds`, a cost beyond 128 bits is `ArithmeticOverflow`. An
    /// excess is owed back to `signer`; an exact payment asks for no credit.
    pub fn pay_for_storage(
        signer: &String,
        initial_storage: u64,
        current_storage: u64,
        attached_storage_cost: u128,
    ) -> (settled: Result<Option<Transfer>, WishlistError>)
        requires
            initial_storage <= current_storage,
        ensures
            payment_view(settled) == payment_outcome(
                signer@,
                initial_storage,
                current_storage,
                attached_storage_cost,
            ),
    {
        let storage_cost = near_sdk::env::storage_byte_cost();
        match charge_on_growth(
            initial_storage,
            current_storage,
            storage_cost,
            attached_storage_cost,
        ) {
            Ok(excess_balance) => {
                if excess_balance > 0 {
                    Ok(Some(Wishlist::return_excess_tokens(signer, excess_balance)))
                } else {
                    Ok(None)
                }
            },
            Err(error) => Err(error),
        }
    }

    /// The credit of `excess_balance` to `signer`.
    pub fn return_excess_tokens(signer: &String, excess_balance: u128) -> (transfer: Transfer)
        ensures
            transfer@ == (TransferView { to: signer@, amount: excess_balance }),
    {
        Transfer { to: signer.clone(), amount: excess_balance }
    }

    /// Prices the storage that a removal released, at the host's price per
    /// byte. The whole amount is owed to `signer`, also when it is zero; a
    /// price beyond 128 bits is `ArithmeticOverflow`.
    pub fn refund_storage_cost(
        signer: &String,
        initial_storage: u64,
        current_storage: u64,
    ) -> (settled: Result<Transfer, WishlistError>)
        requires
            current_storage <= initial_storage,
        ensures
            release_view(settled) == release_outcome(signer@, initial_storage, current_storage),
    {
        let storage_unit_price = near_sdk::env::storage_byte_cost();
        match refund_on_shrink(initial_storage, current_storage, storage_unit_price) {
            Ok(refundable_storage_cost) => Ok(
                Wishlist::return_excess_tokens(signer, refundable_storage_cost),
            ),
            Err(error) => Err(error),
        }
    }
}

/// Whatever one owner adds is read back in the order in which it was added:
/// after the owner has added `items`, a page from offset zero that is long
/// enough for the whole wishlist holds what the wishlist held before,
/// followed by `items`.
pub proof fn lemma_added_cars_are_read_back(
    registry: Map<Seq<char>, Seq<VehicleView>>,
    owner: Seq<char>,
    items: Seq<VehicleView>,
    limit: nat,
)
    requires
        limit >= collection_of(registry, owner).len() + items.len(),
    ensures
        page_of(collection_of(after_adds(registry, owner, items), owner), 0, limit)
            == collection_of(registry, owner) + items,
        collection_of(after_adds(registry, owner, items), owner) == collection_of(registry, owner)
            + items,
    decreases items.len(),
{
    let before = collection_of(registry, owner);
    let after = collection_of(after_adds(registry, owner, items), owner);
    if items.len() == 0 {
        assert(before + items =~= before);
    } else {
        lemma_added_cars_are_read_back(registry, owner, items.drop_last(), limit);
        assert(before + items =~= (before + items.drop_last()).push(items.last()));
    }
    assert(page_of(after, 0, limit) =~= after);
}

} // verus!
