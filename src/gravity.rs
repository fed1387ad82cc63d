use vstd::prelude::*;
use crate::vector::{in_range, vdot, vin_range, Array3d, LIMIT};

verus! {

/// Distance, in micrometres, under which two bodies count as coincident (1 m).
pub const MIN_DISTANCE: u128 = 1000000;

/// Fixed-point scale of a unit vector's components.
pub const UNIT_SCALE: u128 = 1000000000;

/// Bound on a gravitational parameter accepted by `newton_gravitational_field`.
pub const MU_LIMIT: u128 = 200000000000000000000000000000000000000;

/// `r` is the integer square root of `s`.
pub open spec fn is_isqrt(s: int, r: int) -> bool {
    0 <= r && r * r <= s < (r + 1) * (r + 1)
}

/// The integer square root of `s`.
pub open spec fn isqrt(s: int) -> int {
    choose|r: int| is_isqrt(s, r)
}

pub open spec fn abs(a: int) -> int {
    if a < 0 {
        -a
    } else {
        a
    }
}

/// One component of `mu * d / |d|^3`, for a distance `n = |d|`: the magnitude
/// `mu / n^2` times the unit component `|di| / n` held to `UNIT_SCALE`, each
/// step rounded down, with the sign of `di`.
pub open spec fn field_component(mu: int, n: int, di: int) -> int {
    let k = mu / (n * n);
    let u = (abs(di) * UNIT_SCALE) / n;
    let m = (k * u) / (UNIT_SCALE as int);
    if di < 0 {
        -m
    } else {
        m
    }
}

/// Acceleration towards a body of gravitational parameter `mu` seen along `d`.
pub open spec fn field(mu: int, d: (int, int, int)) -> (int, int, int) {
    let n = isqrt(vdot(d, d));
    (field_component(mu, n, d.0), field_component(mu, n, d.1), field_component(mu, n, d.2))
}

/// Why a field could not be computed.
#[derive(Clone, Copy, Debug, PartialEq, Eq, Structural)]
pub enum FieldError {
    /// The two bodies are closer than `MIN_DISTANCE`.
    Coincident,
    /// A component leaves `[-LIMIT, LIMIT]`.
    OutOfRange,
}

/// The outcome of `newton_gravitational_field` on `mu` and `d`.
pub open spec fn field_result(mu: int, d: (int, int, int)) -> Result<(int, int, int), FieldError> {
    if !vin_range(d) {
        Err(FieldError::OutOfRange)
    } else if isqrt(vdot(d, d)) < MIN_DISTANCE {
        Err(FieldError::Coincident)
    } else if !vin_range(field(mu, d)) {
        Err(FieldError::OutOfRange)
    } else {
        Ok(field(mu, d))
    }
}

proof fn lemma_isqrt_unique(s: int, r1: int, r2: int)
    requires
        is_isqrt(s, r1),
        is_isqrt(s, r2),
    ensures
        r1 == r2,
{
    if r1 < r2 {
        assert((r1 + 1) * (r1 + 1) <= r2 * r2) by (nonlinear_arith)
            requires
                0 <= r1 < r2,
        ;
    } else if r2 < r1 {
        assert((r2 + 1) * (r2 + 1) <= r1 * r1) by (nonlinear_arith)
            requires
                0 <= r2 < r1,
        ;
    }
}

/// The integer square root of `s`.
pub fn isqrt_u128(s: u128) -> (r: u128)
    requires
        s < 0x1000_0000_0000_0000_0000_0000_0000_0000,
    ensures
        r == isqrt(s as int),
        is_isqrt(s as int, r as int),
{
    let mut lo: u128 = 0;
    let mut hi: u128 = 0x4000_0000_0000_0000;
    assert(hi * hi == 0x1000_0000_0000_0000_0000_0000_0000_0000);
    while hi - lo > 1
        invariant
            lo < hi <= 0x4000_0000_0000_0000,
            lo * lo <= s,
            s < hi * hi,
        decreases hi - lo,
    {
        let mid = lo + (hi - lo) / 2;
        assert(mid * mid <= 0x4000_0000_0000_0000 * 0x4000_0000_0000_0000) by (nonlinear_arith)
            requires
                mid <= 0x4000_0000_0000_0000,
        ;
        if mid * mid <= s {
            lo = mid;
        } else {
            hi = mid;
        }
    }
    assert(hi == lo + 1);
    proof {
        lemma_isqrt_unique(s as int, lo as int, isqrt(s as int));
    }
    lo
}

proof fn lemma_component_below_norm(a: int, b: int, c: int, n: int)
    requires
        is_isqrt(a * a + b * b + c * c, n),
    ensures
        abs(a) <= n,
{
    assert(b * b >= 0 && c * c >= 0) by (nonlinear_arith);
    assert(abs(a) * abs(a) == a * a) by (nonlinear_arith);
    if abs(a) > n {
        assert(abs(a) * abs(a) >= (n + 1) * (n + 1)) by (nonlinear_arith)
            requires
                abs(a) >= n + 1,
                n >= 0,
        ;
    }
}

fn field_component_exec(mu: u128, n: u128, di: i64) -> (r: Option<i64>)
    requires
        mu <= MU_LIMIT,
        MIN_DISTANCE <= n,
        abs(di as int) <= n,
        n <= 0x4000_0000_0000_0000,
    ensures
        r.is_some() <==> in_range(field_component(mu as int, n as int, di as int)),
        r.is_some() ==> r.unwrap() == field_component(mu as int, n as int, di as int),
{
    let a: u128 = if di < 0 { (-(di as i128)) as u128 } else { di as u128 };
    assert(n * n >= MIN_DISTANCE * MIN_DISTANCE) by (nonlinear_arith)
        requires
            MIN_DISTANCE <= n,
    ;
    assert(n * n <= 0x4000_0000_0000_0000 * 0x4000_0000_0000_0000) by (nonlinear_arith)
        requires
            n <= 0x4000_0000_0000_0000,
    ;
    let k = mu / (n * n);
    assert(k <= 200_000_000_000_000_000_000_000_000) by (nonlinear_arith)
        requires
            k as int == (mu as int) / (n * n),
            n * n >= 1_000_000_000_000,
            mu <= 200_000_000_000_000_000_000_000_000_000_000_000_000,
    ;
    assert(a * UNIT_SCALE <= 0x4000_0000_0000_0000 * UNIT_SCALE) by (nonlinear_arith)
        requires
            a <= n <= 0x4000_0000_0000_0000,
    ;
    let u = (a * UNIT_SCALE) / n;
    assert(u <= 1_000_000_000) by (nonlinear_arith)
        requires
            u as int == (a * 1_000_000_000) / (n as int),
            a <= n,
            n > 0,
    ;
    assert(k * u <= 200_000_000_000_000_000_000_000_000_000_000_000) by (nonlinear_arith)
        requires
            k <= 200_000_000_000_000_000_000_000_000,
            u <= 1_000_000_000,
    ;
    let m = (k * u) / UNIT_SCALE;
    if m > LIMIT as u128 {
        None
    } else if di < 0 {
        Some(-(m as i64))
    } else {
        Some(m as i64)
    }
}

/// Newtonian acceleration, in µm/s², towards a body of gravitational
/// parameter `mu` (µm³/s²) that lies at `d` (µm) from the point where it is
/// felt: `mu * d / |d|^3` in fixed point.
pub fn newton_gravitational_field(d: &Array3d, mu: u128) -> (r: Result<Array3d, FieldError>)
    requires
        mu <= MU_LIMIT,
    ensures
        r matches Ok(g) ==> field_result(mu as int, d@) == Ok::<(int, int, int), FieldError>(g@),
        r matches Err(e) ==> field_result(mu as int, d@) == Err::<(int, int, int), FieldError>(e),
{
    if !d.is_wf() {
        return Err(FieldError::OutOfRange);
    }
    let (x, y, z) = (d.x as i128, d.y as i128, d.z as i128);
    assert(x * x <= LIMIT * LIMIT && y * y <= LIMIT * LIMIT && z * z <= LIMIT * LIMIT
        && x * x >= 0 && y * y >= 0 && z * z >= 0) by (nonlinear_arith)
        requires
            in_range(x as int),
            in_range(y as int),
            in_range(z as int),
    ;
    let s = (x * x + y * y + z * z) as u128;
    let n = isqrt_u128(s);
    if n < MIN_DISTANCE {
        return Err(FieldError::Coincident);
    }
    proof {
        lemma_component_below_norm(d.x as int, d.y as int, d.z as int, n as int);
        lemma_component_below_norm(d.y as int, d.x as int, d.z as int, n as int);
        lemma_component_below_norm(d.z as int, d.x as int, d.y as int, n as int);
        if n > 0x4000_0000_0000_0000 {
            assert(n * n > 0x4000_0000_0000_0000 * 0x4000_0000_0000_0000) by (nonlinear_arith)
                requires
                    n > 0x4000_0000_0000_0000,
            ;
        }
    }
    let gx = field_component_exec(mu, n, d.x);
    let gy = field_component_exec(mu, n, d.y);
    let gz = field_component_exec(mu, n, d.z);
    match (gx, gy, gz) {
        (Some(x), Some(y), Some(z)) => Ok(Array3d { x, y, z }),
        _ => Err(FieldError::OutOfRange),
    }
}

} // verus!
