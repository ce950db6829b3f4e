use vstd::prelude::*;

verus! {

/// The yield reserve that routing sends funds to.
#[derive(Clone, Copy, Debug, PartialEq, Eq, Structural)]
pub enum Destination {
    YieldA,
    YieldB,
}

/// Destination A at or above the threshold price, destination B below it.
pub open spec fn destination_for(observed_price: i64, route_threshold_price: i64) -> Destination {
    if observed_price >= route_threshold_price {
        Destination::YieldA
    } else {
        Destination::YieldB
    }
}

/// Picks the destination reserve for an observed price; a price equal to the threshold
/// goes to A.
pub fn select_destination(observed_price: i64, route_threshold_price: i64) -> (r: Destination)
    ensures
        r == destination_for(observed_price, route_threshold_price),
        observed_price == route_threshold_price ==> r == Destination::YieldA,
{
    if observed_price >= route_threshold_price {
        Destination::YieldA
    } else {
        Destination::YieldB
    }
}

} // verus!
