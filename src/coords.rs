use vstd::prelude::*;
use crate::vector::{in_range, LIMIT};

verus! {

/// `ATTO_AU_RATIO` atto-AU (1e-18 AU) make `MICROMETER_RATIO` micrometres,
/// with 1 AU = 1.4959787e11 m.
pub const ATTO_AU_RATIO: i128 = 100000000;

/// See `ATTO_AU_RATIO`.
pub const MICROMETER_RATIO: i128 = 14959787;

/// Largest magnitude of a component held in atto-AU: `LIMIT` micrometres,
/// about 15.4 AU.
pub const AU_LIMIT: i128 = 15413608557486105599;

/// A position tagged with its unit and its frame.
#[derive(Clone, Copy, Debug, PartialEq, Eq, Structural)]
pub struct CartesianCoords {
    /// Components in micrometres when set, else in atto-AU (1e-18 AU).
    pub is_meters: bool,
    /// Centred on the Sun when set, else on the Earth.
    pub heliocentric: bool,
    pub xh: i128,
    pub yh: i128,
    pub zh: i128,
}

pub open spec fn au_in_range(c: int) -> bool {
    -AU_LIMIT <= c <= AU_LIMIT
}

/// `a / q` rounded to the nearest integer, halves away from zero.
pub open spec fn div_round(a: int, q: int) -> int {
    if a >= 0 {
        (a + q / 2) / q
    } else {
        -((-a + q / 2) / q)
    }
}

/// An atto-AU component in micrometres, rounded to the nearest.
pub open spec fn au_to_um(c: int) -> int {
    div_round(c * MICROMETER_RATIO, ATTO_AU_RATIO as int)
}

/// A micrometre component in atto-AU, rounded to the nearest.
pub open spec fn um_to_au(m: int) -> int {
    div_round(m * ATTO_AU_RATIO, MICROMETER_RATIO as int)
}

proof fn lemma_div_round_error(a: int, q: int)
    requires
        q > 0,
    ensures
        a - q / 2 <= div_round(a, q) * q <= a + q / 2,
{
    if a >= 0 {
        let d = (a + q / 2) / q;
        assert(a - q / 2 <= d * q <= a + q / 2) by (nonlinear_arith)
            requires
                q > 0,
                d == (a + q / 2) / q,
                q / 2 * 2 <= q,
                q <= q / 2 * 2 + 1,
        ;
    } else {
        let d = (-a + q / 2) / q;
        assert(-a - q / 2 <= d * q <= -a + q / 2) by (nonlinear_arith)
            requires
                q > 0,
                d == (-a + q / 2) / q,
                q / 2 * 2 <= q,
                q <= q / 2 * 2 + 1,
        ;
        assert((-d) * q == -(d * q)) by (nonlinear_arith);
    }
}

proof fn lemma_div_round_unique(a: int, q: int, m: int)
    requires
        q > 0,
        a - q / 2 < m * q < a + q / 2,
    ensures
        div_round(a, q) == m,
{
    lemma_div_round_error(a, q);
    let d = div_round(a, q);
    assert(d == m) by (nonlinear_arith)
        requires
            q > 0,
            a - q / 2 <= d * q <= a + q / 2,
            a - q / 2 < m * q < a + q / 2,
            q / 2 * 2 <= q,
    ;
}

impl CartesianCoords {
    pub open spec fn wf(&self) -> bool {
        if self.is_meters {
            in_range(self.xh as int) && in_range(self.yh as int) && in_range(self.zh as int)
        } else {
            au_in_range(self.xh as int) && au_in_range(self.yh as int) && au_in_range(
                self.zh as int,
            )
        }
    }

    pub open spec fn components(&self) -> (int, int, int) {
        (self.xh as int, self.yh as int, self.zh as int)
    }

    /// The components in micrometres.
    pub open spec fn um_components(&self) -> (int, int, int) {
        if self.is_meters {
            self.components()
        } else {
            (au_to_um(self.xh as int), au_to_um(self.yh as int), au_to_um(self.zh as int))
        }
    }

    pub open spec fn spec_origin() -> CartesianCoords {
        CartesianCoords { is_meters: false, heliocentric: true, xh: 0, yh: 0, zh: 0 }
    }

    /// Coordinates in atto-AU.
    pub fn au(xh: i128, yh: i128, zh: i128, heliocentric: bool) -> (r: CartesianCoords)
        ensures
            r == (CartesianCoords { is_meters: false, heliocentric, xh, yh, zh }),
    {
        CartesianCoords { is_meters: false, heliocentric, xh, yh, zh }
    }

    /// The origin of the heliocentric frame, in atto-AU.
    pub fn origin() -> (r: CartesianCoords)
        ensures
            r == CartesianCoords::spec_origin(),
            r.wf(),
            r.components() == (0int, 0int, 0int),
    {
        CartesianCoords { is_meters: false, heliocentric: true, xh: 0, yh: 0, zh: 0 }
    }

    /// Converts the coordinates from atto-AU to micrometres, rounding to the
    /// nearest; coordinates already in micrometres are left as they are.
    pub fn to_meters(&mut self)
        requires
            old(self).wf(),
        ensures
            final(self).wf(),
            final(self).is_meters,
            final(self).heliocentric == old(self).heliocentric,
            final(self).components() == old(self).um_components(),
            old(self).is_meters ==> *final(self) == *old(self),
    {
        if !self.is_meters {
            self.is_meters = true;
            self.xh = au_component_to_um(self.xh);
            self.yh = au_component_to_um(self.yh);
            self.zh = au_component_to_um(self.zh);
        }
    }

    /// Converts the coordinates from micrometres to atto-AU, rounding to the
    /// nearest; coordinates already in atto-AU are left as they are.
    pub fn to_au(&mut self)
        requires
            old(self).wf(),
        ensures
            final(self).wf(),
            !final(self).is_meters,
            final(self).heliocentric == old(self).heliocentric,
            !old(self).is_meters ==> *final(self) == *old(self),
            old(self).is_meters ==> final(self).xh == um_to_au(old(self).xh as int)
                && final(self).yh == um_to_au(old(self).yh as int)
                && final(self).zh == um_to_au(old(self).zh as int),
    {
        if self.is_meters {
            self.is_meters = false;
            self.xh = um_component_to_au(self.xh);
            self.yh = um_component_to_au(self.yh);
            self.zh = um_component_to_au(self.zh);
        }
    }
}

/// One component in micrometres.
pub fn au_component_to_um(c: i128) -> (r: i128)
    requires
        au_in_range(c as int),
    ensures
        r == au_to_um(c as int),
        in_range(r as int),
{
    let p = MICROMETER_RATIO;
    let q = ATTO_AU_RATIO;
    let a: i128 = if c >= 0 { c } else { -c };
    assert(0 <= (a * 14959787 + 50000000) / 100000000 <= LIMIT) by (nonlinear_arith)
        requires
            0 <= a <= 15413608557486105599,
    ;
    if c >= 0 {
        (c * p + q / 2) / q
    } else {
        -((-c * p + q / 2) / q)
    }
}

/// One component in atto-AU.
pub fn um_component_to_au(m: i128) -> (r: i128)
    requires
        in_range(m as int),
    ensures
        r == um_to_au(m as int),
        au_in_range(r as int),
{
    let p = MICROMETER_RATIO;
    let q = ATTO_AU_RATIO;
    let a: i128 = if m >= 0 { m } else { -m };
    assert(0 <= (a * 100000000 + 7479893) / 14959787 <= AU_LIMIT) by (nonlinear_arith)
        requires
            0 <= a <= 2305843009213693952,
    ;
    if m >= 0 {
        (m * q + p / 2) / p
    } else {
        -((-m * q + p / 2) / p)
    }
}

/// Converting micrometres to atto-AU and back gives every component back
/// exactly; converting atto-AU to micrometres and back moves a component by
/// at most three atto-AU, a relative error under 1e-6 for every component of
/// at least 3e6 atto-AU (about half a metre).
pub proof fn lemma_au_meters_round_trip(c: int, m: int)
    requires
        au_in_range(c),
        in_range(m),
    ensures
        au_to_um(um_to_au(m)) == m,
        -3 <= um_to_au(au_to_um(c)) - c <= 3,
{
    let p = MICROMETER_RATIO as int;
    let q = ATTO_AU_RATIO as int;
    lemma_div_round_error(m * q, p);
    let u = um_to_au(m);
    lemma_div_round_unique(u * p, q, m);
    lemma_div_round_error(c * p, q);
    let w = au_to_um(c);
    lemma_div_round_error(w * q, p);
    let v = um_to_au(w);
    let e = v - c;
    assert(e * p == v * p - c * p) by (nonlinear_arith)
        requires
            e == v - c,
    ;
    assert(-57479893 <= e * p <= 57479893);
    assert(-3 <= e <= 3) by (nonlinear_arith)
        requires
            p == 14959787,
            -57479893 <= e * p <= 57479893,
    ;
}

} // verus!
