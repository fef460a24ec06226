//! The vehicle record: one entry of a wishlist.

use vstd::prelude::*;

verus! {

/// A single wishlist entry. It carries no identity of its own: an entry is
/// known only by its position in the wishlist that holds it.
///
/// The price is carried as the bit pattern of an IEEE 754 binary64 number, so
/// that every price a caller can name is kept exactly.
#[derive(Debug, PartialEq, Eq)]
pub struct Vehicle {
    pub image: String,
    pub name: String,
    pub model: String,
    pub mileage: u64,
    pub year: String,
    pub price_bits: u64,
}

/// The mathematical value of a [`Vehicle`]: its texts as sequences of
/// characters, its numbers unchanged.
pub ghost struct VehicleView {
    pub image: Seq<char>,
    pub name: Seq<char>,
    pub model: Seq<char>,
    pub mileage: u64,
    pub year: Seq<char>,
    pub price_bits: u64,
}

impl View for Vehicle {
    type V = VehicleView;

    open spec fn view(&self) -> VehicleView {
        VehicleView {
            image: self.image@,
            name: self.name@,
            model: self.model@,
            mileage: self.mileage,
            year: self.year@,
            price_bits: self.price_bits,
        }
    }
}

/// The values of a sequence of vehicles, position by position.
pub open spec fn vehicle_views(items: Seq<Vehicle>) -> Seq<VehicleView> {
    Seq::new(items.len(), |i: int| items[i]@)
}

impl Vehicle {
    /// Builds a vehicle from its six fields. Nothing is validated: empty
    /// texts, a zero mileage and any price are accepted as they are.
    pub fn new(
        image: String,
        name: String,
        model: String,
        mileage: u64,
        year: String,
        price_bits: u64,
    ) -> (vehicle: Vehicle)
        ensures
            vehicle == (Vehicle { image, name, model, mileage, year, price_bits }),
            vehicle@ == (VehicleView {
                image: image@,
                name: name@,
                model: model@,
                mileage,
                year: year@,
                price_bits,
            }),
    {
        Vehicle { image, name, model, mileage, year, price_bits }
    }
}

impl Clone for Vehicle {
    fn clone(&self) -> (copy: Self)
        ensures
            copy == *self,
    {
        Vehicle {
            image: self.image.clone(),
            name: self.name.clone(),
            model: self.model.clone(),
            mileage: self.mileage,
            year: self.year.clone(),
            price_bits: self.price_bits,
        }
    }
}

} // verus!
