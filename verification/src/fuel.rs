//! Fuel needed to launch a module of a given mass, and the fuel needed to
//! carry that fuel.

use vstd::prelude::*;

verus! {

/// A third of `weight`, rounded toward zero, less two.
pub open spec fn fuel_amount(weight: int) -> int {
    if weight >= 0 {
        weight / 3 - 2
    } else {
        -((-weight) / 3) - 2
    }
}

/// The sum of the chain `fuel_amount(fuel)`, `fuel_amount(fuel_amount(fuel))`,
/// and so on, up to but not including the first member that is not positive.
pub open spec fn fuel_for_fuel(fuel: int) -> int
    decreases fuel,
{
    if fuel <= 0 {
        0
    } else {
        let next = fuel_amount(fuel);
        if next > 0 {
            next + fuel_for_fuel(next)
        } else {
            0
        }
    }
}

/// The fuel that carries a positive load of fuel never outweighs the load.
pub proof fn lemma_fuel_for_fuel_bounds(fuel: int)
    ensures
        0 <= fuel_for_fuel(fuel),
        fuel > 0 ==> fuel_for_fuel(fuel) < fuel,
        fuel <= 0 ==> fuel_for_fuel(fuel) == 0,
    decreases fuel,
{
    if fuel > 0 {
        let next = fuel_amount(fuel);
        if next > 0 {
            lemma_fuel_for_fuel_bounds(next);
        }
    }
}

/// Fuel for a module of mass `weight`.
pub fn get_fuel_amount(weight: i32) -> (fuel: i32)
    ensures
        fuel == fuel_amount(weight as int),
{
    weight / 3 - 2
}

/// Fuel needed to carry `fuel` units of fuel, counting the fuel for that
/// fuel in turn until the amount is no longer positive.
pub fn get_fuel_for_fuel(fuel: i32) -> (total: i32)
    ensures
        total == fuel_for_fuel(fuel as int),
{
    let mut last_fuel_weight: i32 = fuel;
    let mut total: i32 = 0;
    proof {
        lemma_fuel_for_fuel_bounds(fuel as int);
    }
    while last_fuel_weight > 0
        invariant
            0 <= total,
            total + fuel_for_fuel(last_fuel_weight as int) == fuel_for_fuel(fuel as int),
            fuel_for_fuel(fuel as int) <= i32::MAX,
        decreases last_fuel_weight + 2,
    {
        last_fuel_weight = get_fuel_amount(last_fuel_weight);
        if last_fuel_weight > 0 {
            proof {
                lemma_fuel_for_fuel_bounds(last_fuel_weight as int);
            }
            total = total + last_fuel_weight;
        }
    }
    total
}

} // verus!
