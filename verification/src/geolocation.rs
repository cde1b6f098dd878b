//! Where on the globe an address is.

use vstd::prelude::*;

verus! {

/// A point on the globe. Latitude and longitude are kept as the bits of their 64-bit
/// floating-point values, which is all that storing and returning them asks for.
#[derive(Debug, Clone, Copy, PartialEq, Eq, Structural)]
pub struct Coordinate {
    pub latitude_bits: u64,
    pub longitude_bits: u64,
}

/// What the lookup service says of an address.
#[derive(Debug, PartialEq, Eq)]
pub struct Geolocation {
    pub latitude_bits: u64,
    pub longitude_bits: u64,
    pub country_name: String,
}

impl Geolocation {
    /// The point of the geolocation.
    pub fn coordinate(&self) -> (coordinate: Coordinate)
        ensures
            coordinate == (Coordinate {
                latitude_bits: self.latitude_bits,
                longitude_bits: self.longitude_bits,
            }),
    {
        Coordinate { latitude_bits: self.latitude_bits, longitude_bits: self.longitude_bits }
    }
}

} // verus!
