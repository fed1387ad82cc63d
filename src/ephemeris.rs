use vstd::prelude::*;
use crate::coords::CartesianCoords;

verus! {

/// Position of the Sun at `day_s` seconds after 2000-01-01T00:00:00: the
/// origin of the heliocentric frame, whatever the day.
pub fn sun_position(day_s: i64) -> (r: CartesianCoords)
    ensures
        r.components() == (0int, 0int, 0int),
        r.heliocentric,
        !r.is_meters,
        r.wf(),
{
    CartesianCoords::origin()
}

/// Position of the Earth from its ecliptic longitude series, `x` and `y` in
/// atto-AU: heliocentric, and on the plane of the ecliptic.
pub fn earth_position(x: i128, y: i128) -> (r: CartesianCoords)
    ensures
        r.components() == (x as int, y as int, 0int),
        r.zh == 0,
        r.heliocentric,
        !r.is_meters,
{
    CartesianCoords::au(x, y, 0, true)
}

/// Position of the Moon from its perturbed orbital elements, in atto-AU:
/// geocentric.
pub fn moon_position(x: i128, y: i128, z: i128) -> (r: CartesianCoords)
    ensures
        r.components() == (x as int, y as int, z as int),
        !r.heliocentric,
        !r.is_meters,
{
    CartesianCoords::au(x, y, z, false)
}

} // verus!
