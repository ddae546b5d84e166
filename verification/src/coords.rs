//! Normalized variation coordinates: one value per axis of a font, in axis
//! order, each a 2.14 fixed-point number held as its 16 bits.

use vstd::prelude::*;

verus! {

#[verifier::external_type_specification]
#[verifier::external_body]
pub struct ExLocation(skrifa::instance::Location);

/// The coordinates that a location holds, in axis order.
pub uninterp spec fn location_coords(location: skrifa::instance::Location) -> Seq<i16>;

/// Calls `Default::default` of `skrifa::instance::Location`: the location
/// without coordinates.
#[verifier::external_body]
fn empty_location() -> (r: skrifa::instance::Location)
    ensures
        location_coords(r) == Seq::<i16>::empty(),
{
    skrifa::instance::Location::default()
}

/// The coordinates resolved for one font from a list of design coordinates.
pub struct BridgeNormalizedCoords(skrifa::instance::Location);

impl View for BridgeNormalizedCoords {
    type V = Seq<i16>;

    closed spec fn view(&self) -> Seq<i16> {
        location_coords(self.0)
    }
}

impl BridgeNormalizedCoords {
    /// The location that holds the coordinates.
    pub closed spec fn spec_location(&self) -> skrifa::instance::Location {
        self.0
    }

    /// The location that holds the coordinates, for the scaler.
    pub fn location(&self) -> (r: &skrifa::instance::Location)
        ensures
            *r == self.spec_location(),
            location_coords(*r) == self@,
    {
        &self.0
    }
}

/// The coordinate set for the location that the axes of a valid handle's
/// font resolved; the empty set where there was no font to resolve against.
pub fn resolve_into_normalized_coords(resolved: Option<skrifa::instance::Location>) -> (r:
    BridgeNormalizedCoords)
    ensures
        r@ == match resolved {
            Some(location) => location_coords(location),
            None => Seq::<i16>::empty(),
        },
{
    match resolved {
        Some(location) => BridgeNormalizedCoords(location),
        None => BridgeNormalizedCoords(empty_location()),
    }
}

} // verus!
