//! One owner's wishlist: an ordered sequence of vehicles.

use vstd::prelude::*;

use crate::error::WishlistError;
use crate::vehicle::{vehicle_views, Vehicle, VehicleView};

verus! {

/// The page of `items` that starts at offset `start` and holds at most `limit`
/// entries, in their order. Past the end the page is empty; near the end it is
/// cut short.
pub open spec fn page_of<T>(items: Seq<T>, start: nat, limit: nat) -> Seq<T> {
    if start >= items.len() {
        Seq::empty()
    } else if start + limit >= items.len() {
        items.subrange(start as int, items.len() as int)
    } else {
        items.subrange(start as int, (start + limit) as int)
    }
}

/// The wishlist of one owner. Insertion order is the only order; positions
/// count from zero and shift down when an earlier entry is removed.
pub struct User {
    wishlist: Vec<Vehicle>,
}

impl View for User {
    type V = Seq<VehicleView>;

    closed spec fn view(&self) -> Seq<VehicleView> {
        vehicle_views(self.wishlist@)
    }
}

/// Copies the vehicles of `items` at the positions from `begin` up to, and not
/// including, `end`.
fn copy_range(items: &Vec<Vehicle>, begin: usize, end: usize) -> (copy: Vec<Vehicle>)
    requires
        begin <= end <= items@.len(),
    ensures
        copy@ == items@.subrange(begin as int, end as int),
{
    let mut copy: Vec<Vehicle> = Vec::new();
    let mut i = begin;
    while i < end
        invariant
            begin <= i <= end <= items@.len(),
            copy@ == items@.subrange(begin as int, i as int),
        decreases end - i,
    {
        copy.push(items[i].clone());
        i += 1;
    }
    copy
}

impl Clone for User {
    fn clone(&self) -> (copy: Self)
        ensures
            copy@ == self@,
    {
        let wishlist = copy_range(&self.wishlist, 0, self.wishlist.len());
        User { wishlist }
    }
}

impl Default for User {
    fn default() -> (user: Self)
        ensures
            user@ == Seq::<VehicleView>::empty(),
    {
        User::new_user()
    }
}

impl User {
    /// An empty wishlist.
    pub fn new_user() -> (user: Self)
        ensures
            user@ == Seq::<VehicleView>::empty(),
    {
        User { wishlist: Vec::new() }
    }

    /// The wishlist that holds `wishlist`, in its order.
    pub fn from_vehicles(wishlist: Vec<Vehicle>) -> (user: Self)
        ensures
            user@ == vehicle_views(wishlist@),
    {
        User { wishlist }
    }

    /// The vehicles of the wishlist, in its order.
    pub fn into_vehicles(self) -> (wishlist: Vec<Vehicle>)
        ensures
            vehicle_views(wishlist@) == self@,
    {
        self.wishlist
    }

    /// Appends a vehicle built from the six fields. Always succeeds.
    pub fn add(
        &mut self,
        image: String,
        name: String,
        model: String,
        mileage: u64,
        year: String,
        price_bits: u64,
    )
        ensures
            final(self)@ == old(self)@.push(
                (VehicleView {
                    image: image@,
                    name: name@,
                    model: model@,
                    mileage,
                    year: year@,
                    price_bits,
                }),
            ),
    {
        let vehicle = Vehicle::new(image, name, model, mileage, year, price_bits);
        self.wishlist.push(vehicle);
    }

    /// Up to `limit` vehicles beginning at offset `start`, in insertion order.
    /// An offset at or past the end gives an empty page, never an error, and
    /// a page that would run past the end is cut short there.
    pub fn show(&self, start: u32, limit: u32) -> (page: Vec<Vehicle>)
        ensures
            vehicle_views(page@) == page_of(self@, start as nat, limit as nat),
            forall|i: int| 0 <= i < page@.len() ==> (#[trigger] page@[i])@ == self@[start + i],
            start >= self@.len() ==> page@.len() == 0,
            start <= self@.len() < start + limit ==> page@.len() == self@.len() - start,
            start + limit <= self@.len() ==> page@.len() == limit,
    {
        let len = self.wishlist.len();
        let begin = start as usize;
        if begin >= len {
            return Vec::new();
        }
        let room = len - begin;
        let count = if (limit as usize) < room {
            limit as usize
        } else {
            room
        };
        copy_range(&self.wishlist, begin, begin + count)
    }

    /// Removes and returns the vehicle at `index`; every later vehicle moves
    /// down by one position. An index at or past the end, which is every index
    /// on an empty wishlist, is rejected with `InvalidIndex`, and the wishlist
    /// is left as it was.
    pub fn remove(&mut self, index: u64) -> (removed: Result<Vehicle, WishlistError>)
        ensures
            removed is Ok <==> index < old(self)@.len(),
            removed is Err ==> removed->Err_0 == WishlistError::InvalidIndex,
            removed is Err ==> final(self)@ == old(self)@,
            removed is Ok ==> removed->Ok_0@ == old(self)@[index as int],
            removed is Ok ==> final(self)@ == old(self)@.remove(index as int),
            removed is Ok ==> final(self)@.len() == old(self)@.len() - 1,
            removed is Ok ==> forall|j: int|
                0 <= j < index ==> #[trigger] final(self)@[j] == old(self)@[j],
            removed is Ok ==> forall|j: int|
                index < j < old(self)@.len() ==> final(self)@[j - 1] == #[trigger] old(self)@[j],
    {
        let size = self.wishlist.len();
        if size == 0 || index >= size as u64 {
            return Err(WishlistError::InvalidIndex);
        }
        let vehicle = self.wishlist.remove(index as usize);
        Ok(vehicle)
    }
}

} // verus!
