use vstd::prelude::*;
use crate::bodies::{SmallBody, SolarBody, Solarobj};
use crate::environment::{centric_position, Environment, CENTRIC_INDEX};
use crate::gravity::{field_result, newton_gravitational_field, FieldError};
use crate::vector::{vadd, vin_range, vscale, vsub, vsum, Array3d};

verus! {

/// Why a step of a small body failed.
#[derive(Clone, Copy, Debug, PartialEq, Eq, Structural)]
pub enum SimError {
    /// The small body `id` lies within a metre of the ephemeris body `body`,
    /// or the centric body within a metre of it.
    CoincidentBodies { id: u32, body: usize },
    /// A quantity of the small body `id` left the representable range.
    OutOfRange { id: u32 },
    /// The clock left the range of `i64`.
    ClockOverflow,
}

/// Acceleration (µm/s²) of one small body at one time.
#[derive(Clone, Copy, Debug, PartialEq, Eq, Structural)]
pub struct PerturbationDelta {
    pub id: u32,
    pub sim_time: i64,
    pub acceleration: Array3d,
}

/// One contribution to the acceleration of a small body.
#[derive(Clone, Copy, Debug, PartialEq, Eq, Structural)]
pub enum Perturbation {
    /// Gravity of an ephemeris body.
    SolarObject(Solarobj, PerturbationDelta),
}

impl PerturbationDelta {
    /// A delta with every field zero.
    pub fn default() -> (r: PerturbationDelta)
        ensures
            r.id == 0,
            r.sim_time == 0,
            r.acceleration@ == (0int, 0int, 0int),
    {
        PerturbationDelta { id: 0, sim_time: 0, acceleration: Array3d::zero() }
    }
}

impl Perturbation {
    pub open spec fn kind_name(&self) -> Seq<char> {
        match *self {
            Perturbation::SolarObject(s, _) => "solar_obj_"@ + s.name(),
        }
    }

    /// The record's kind: `solar_obj_` followed by the body's name.
    pub fn petrub_type(&self) -> (r: String)
        ensures
            r@ == self.kind_name(),
    {
        proof {
            reveal_strlit("solar_obj_");
            reveal_strlit("solar_obj_Sun");
            reveal_strlit("solar_obj_Earth");
            reveal_strlit("solar_obj_Moon");
            reveal_strlit("Sun");
            reveal_strlit("Earth");
            reveal_strlit("Moon");
        }
        match self {
            Perturbation::SolarObject(Solarobj::Sun { .. }, _) => {
                let r = "solar_obj_Sun".to_owned();
                assert(r@ =~= self.kind_name());
                r
            },
            Perturbation::SolarObject(Solarobj::Earth { .. }, _) => {
                let r = "solar_obj_Earth".to_owned();
                assert(r@ =~= self.kind_name());
                r
            },
            Perturbation::SolarObject(Solarobj::Moon { .. }, _) => {
                let r = "solar_obj_Moon".to_owned();
                assert(r@ =~= self.kind_name());
                r
            },
        }
    }

    pub fn delta(&self) -> (r: PerturbationDelta)
        ensures
            *self == Perturbation::SolarObject(self.spec_body(), r),
    {
        match self {
            Perturbation::SolarObject(_, d) => *d,
        }
    }

    pub open spec fn spec_body(&self) -> Solarobj {
        match *self {
            Perturbation::SolarObject(s, _) => s,
        }
    }
}

pub open spec fn field_error(e: FieldError, id: u32, k: int) -> SimError {
    match e {
        FieldError::Coincident => SimError::CoincidentBodies { id, body: k as usize },
        FieldError::OutOfRange => SimError::OutOfRange { id },
    }
}

/// Acceleration of a small body at `pos` (geocentric) due to the ephemeris
/// body `k`. For a body other than the centric one, the acceleration that the
/// body gives the centric body is taken off, as small bodies move in the
/// centric frame.
#[verifier::opaque]
pub open spec fn contribution(s: Seq<SolarBody>, k: int, pos: (int, int, int), id: u32) -> Result<
    (int, int, int),
    SimError,
> {
    let mu = s[k].solartype.spec_attr().mu as int;
    let c = centric_position(s, k);
    match field_result(mu, vsub(c, pos)) {
        Err(e) => Err(field_error(e, id, k)),
        Ok(g) => if k == CENTRIC_INDEX {
            Ok(g)
        } else {
            match field_result(mu, c) {
                Err(e) => Err(field_error(e, id, k)),
                Ok(gc) => if vin_range(vsub(g, gc)) {
                    Ok(vsub(g, gc))
                } else {
                    Err(SimError::OutOfRange { id })
                },
            }
        },
    }
}

/// Net acceleration of a small body at `pos`: the contributions of the Sun,
/// the Earth and the Moon, summed; the first failure in that order otherwise.
#[verifier::opaque]
pub open spec fn acceleration(s: Seq<SolarBody>, pos: (int, int, int), id: u32) -> Result<
    (int, int, int),
    SimError,
> {
    match contribution(s, 0, pos, id) {
        Err(e) => Err(e),
        Ok(a0) => match contribution(s, 1, pos, id) {
            Err(e) => Err(e),
            Ok(a1) => match contribution(s, 2, pos, id) {
                Err(e) => Err(e),
                Ok(a2) => if vin_range(vsum(seq![a0, a1, a2])) {
                    Ok(vsum(seq![a0, a1, a2]))
                } else {
                    Err(SimError::OutOfRange { id })
                },
            },
        },
    }
}

/// `nb` is `b` after one tick of `dt` seconds in the ephemeris `s`.
pub open spec fn stepped(s: Seq<SolarBody>, b: SmallBody, nb: SmallBody, dt: int) -> bool {
    &&& acceleration(s, b.position@, b.id) matches Ok(a) && euler_step(
        b.position@,
        b.velocity@,
        a,
        dt,
    ) == Some((nb.position@, nb.velocity@))
    &&& nb.id == b.id
    &&& nb.kind == b.kind
    &&& nb.wf()
}

/// Why the tick of `b` fails, if it does.
pub open spec fn step_error(s: Seq<SolarBody>, b: SmallBody, dt: int) -> Option<SimError> {
    match acceleration(s, b.position@, b.id) {
        Err(e) => Some(e),
        Ok(a) => match euler_step(b.position@, b.velocity@, a, dt) {
            None => Some(SimError::OutOfRange { id: b.id }),
            Some(_) => None,
        },
    }
}

/// The acceleration of a small body never fails on the clock.
pub proof fn lemma_acceleration_error(s: Seq<SolarBody>, pos: (int, int, int), id: u32)
    ensures
        acceleration(s, pos, id) matches Err(e) ==> !(e is ClockOverflow),
{
    reveal(acceleration);
    reveal(contribution);
}

/// One symplectic-Euler step over `dt` seconds: the velocity first, then the
/// position with the new velocity; `None` where a quantity leaves the range.
pub open spec fn euler_step(
    pos: (int, int, int),
    vel: (int, int, int),
    acc: (int, int, int),
    dt: int,
) -> Option<((int, int, int), (int, int, int))> {
    let dv = vscale(acc, dt);
    let v = vadd(vel, dv);
    let dp = vscale(v, dt);
    let p = vadd(pos, dp);
    if vin_range(dv) && vin_range(v) && vin_range(dp) && vin_range(p) {
        Some((p, v))
    } else {
        None
    }
}

/// `n` steps with no acceleration.
pub open spec fn drift(pos: (int, int, int), vel: (int, int, int), dt: int, n: nat) -> Option<
    ((int, int, int), (int, int, int)),
>
    decreases n,
{
    if n == 0 {
        Some((pos, vel))
    } else {
        match drift(pos, vel, dt, (n - 1) as nat) {
            None => None,
            Some((p, v)) => euler_step(p, v, (0, 0, 0), dt),
        }
    }
}

/// With no acceleration, `n` steps of `dt` seconds leave the velocity as it
/// was and move the position by exactly `n * dt` times the velocity.
pub proof fn lemma_drift(pos: (int, int, int), vel: (int, int, int), dt: int, n: nat)
    requires
        drift(pos, vel, dt, n) is Some,
    ensures
        drift(pos, vel, dt, n) == Some((vadd(pos, vscale(vel, n * dt)), vel)),
    decreases n,
{
    if n > 0 {
        lemma_drift(pos, vel, dt, (n - 1) as nat);
        let m = (n - 1) as nat;
        assert(vel.0 * (m * dt) + vel.0 * dt == vel.0 * (n * dt)) by (nonlinear_arith)
            requires
                n == m + 1,
        ;
        assert(vel.1 * (m * dt) + vel.1 * dt == vel.1 * (n * dt)) by (nonlinear_arith)
            requires
                n == m + 1,
        ;
        assert(vel.2 * (m * dt) + vel.2 * dt == vel.2 * (n * dt)) by (nonlinear_arith)
            requires
                n == m + 1,
        ;
        assert(0 * dt == 0) by (nonlinear_arith);
    } else {
        assert(vscale(vel, 0) == (0int, 0int, 0int));
    }
}

fn field_of(d: &Array3d, mu: u128, id: u32, k: usize) -> (r: Result<Array3d, SimError>)
    requires
        mu <= crate::gravity::MU_LIMIT,
    ensures
        r matches Ok(g) ==> field_result(mu as int, d@) == Ok::<(int, int, int), FieldError>(g@),
        r matches Err(e) ==> field_result(mu as int, d@) matches Err(fe) && e == field_error(
            fe,
            id,
            k as int,
        ),
{
    match newton_gravitational_field(d, mu) {
        Ok(g) => Ok(g),
        Err(FieldError::Coincident) => Err(SimError::CoincidentBodies { id, body: k }),
        Err(FieldError::OutOfRange) => Err(SimError::OutOfRange { id }),
    }
}

/// Acceleration of the small body `id` at `pos` due to the ephemeris body
/// `k`, as `contribution` states it.
pub fn body_perturbation(env: &Environment, pos: &Array3d, id: u32, k: usize) -> (r: Result<
    Array3d,
    SimError,
>)
    requires
        env.wf(),
        pos.wf(),
        k < 3,
    ensures
        r matches Ok(g) ==> g.wf(),
        r matches Ok(g) ==> contribution(env.objs(), k as int, pos@, id) == Ok::<
            (int, int, int),
            SimError,
        >(g@),
        r matches Err(e) ==> contribution(env.objs(), k as int, pos@, id) == Err::<
            (int, int, int),
            SimError,
        >(e),
{
    reveal(contribution);
    let mu = env.solar_objs[k].solartype.get_attr().mu;
    assert(mu <= crate::gravity::MU_LIMIT) by {
        assert(!env.objs()[k as int].coords.is_meters);
    }
    let d = match env.distance_to(pos, k) {
        Some(d) => d,
        None => {
            return Err(SimError::OutOfRange { id });
        },
    };
    let g = match field_of(&d, mu, id, k) {
        Ok(g) => g,
        Err(e) => {
            return Err(e);
        },
    };
    if k == CENTRIC_INDEX {
        return Ok(g);
    }
    let c = env.centric_position(k);
    if !c.is_wf() {
        return Err(SimError::OutOfRange { id });
    }
    let gc = match field_of(&c, mu, id, k) {
        Ok(gc) => gc,
        Err(e) => {
            return Err(e);
        },
    };
    let r = g.sub(&gc);
    if r.is_wf() {
        Ok(r)
    } else {
        Err(SimError::OutOfRange { id })
    }
}

/// `p` records the contribution `a` of the ephemeris body `body` to the
/// small body `id` at time `t`.
pub open spec fn is_record(
    p: Perturbation,
    body: Solarobj,
    id: u32,
    t: i64,
    a: Result<(int, int, int), SimError>,
) -> bool {
    match p {
        Perturbation::SolarObject(b, d) => b == body && d.id == id && d.sim_time == t && a == Ok::<
            (int, int, int),
            SimError,
        >(d.acceleration@),
    }
}

/// `records` holds, where `wanted` is set and only then, the contribution of
/// each ephemeris body (Sun, Earth, Moon) to the small body `id` at `pos`.
pub open spec fn records_ok(
    records: Option<Vec<Perturbation>>,
    wanted: bool,
    s: Seq<SolarBody>,
    id: u32,
    t: i64,
    pos: (int, int, int),
) -> bool {
    &&& records is Some <==> wanted
    &&& records matches Some(w) ==> {
        &&& w@.len() == 3
        &&& forall|k: int|
            0 <= k < 3 ==> is_record(#[trigger] w@[k], s[k].solartype, id, t, contribution(s, k, pos, id))
    }
}

/// Net acceleration of a small body due to every ephemeris body, with the
/// contribution of each (Sun, Earth, Moon) when `do_return_perturb` is set.
pub fn calc_planet_perturb(
    sim_obj: &SmallBody,
    env: &Environment,
    do_return_perturb: bool,
) -> (r: Result<(PerturbationDelta, Option<Vec<Perturbation>>), SimError>)
    requires
        env.wf(),
        sim_obj.wf(),
    ensures
        r matches Ok((total, _)) ==> total.acceleration.wf(),
        match acceleration(env.objs(), sim_obj.position@, sim_obj.id) {
            Err(e) => r == Err::<(PerturbationDelta, Option<Vec<Perturbation>>), SimError>(e),
            Ok(a) => r matches Ok((total, records)) && {
                &&& total.id == sim_obj.id
                &&& total.sim_time == env.sim_time_s
                &&& total.acceleration@ == a
                &&& records_ok(
                    records,
                    do_return_perturb,
                    env.objs(),
                    sim_obj.id,
                    env.sim_time_s,
                    sim_obj.position@,
                )
            },
        },
{
    reveal(acceleration);
    let id = sim_obj.id;
    let pos = &sim_obj.position;
    let a0 = body_perturbation(env, pos, id, 0)?;
    let a1 = body_perturbation(env, pos, id, 1)?;
    let a2 = body_perturbation(env, pos, id, 2)?;
    let sum = a0.add(&a1);
    let total = Array3d { x: sum.x + a2.x, y: sum.y + a2.y, z: sum.z + a2.z };
    proof {
        let s = seq![a0@, a1@, a2@];
        reveal_with_fuel(vsum, 4);
        assert(s.drop_last().drop_last().drop_last() =~= Seq::<(int, int, int)>::empty());
        assert(s.drop_last().drop_last() =~= seq![a0@]);
        assert(s.drop_last() =~= seq![a0@, a1@]);
        assert(vsum(s) == total@);
    }
    if !total.is_wf() {
        return Err(SimError::OutOfRange { id });
    }
    let delta = PerturbationDelta { id, sim_time: env.sim_time_s, acceleration: total };
    if !do_return_perturb {
        return Ok((delta, None));
    }
    let t = env.sim_time_s;
    let mut records: Vec<Perturbation> = Vec::new();
    records.push(
        Perturbation::SolarObject(
            env.solar_objs[0].solartype,
            PerturbationDelta { id, sim_time: t, acceleration: a0 },
        ),
    );
    records.push(
        Perturbation::SolarObject(
            env.solar_objs[1].solartype,
            PerturbationDelta { id, sim_time: t, acceleration: a1 },
        ),
    );
    records.push(
        Perturbation::SolarObject(
            env.solar_objs[2].solartype,
            PerturbationDelta { id, sim_time: t, acceleration: a2 },
        ),
    );
    Ok((delta, Some(records)))
}

/// Advances a small body by one step of `step_time_s` seconds: the net
/// acceleration updates the velocity, then the new velocity the position.
/// Returns the contribution of each ephemeris body when `do_return_perturb`
/// is set. On an error the body is left as it was.
pub fn apply_perturbations(
    sim_obj: &mut SmallBody,
    env: &Environment,
    step_time_s: i64,
    do_return_perturb: bool,
) -> (r: Result<Option<Vec<Perturbation>>, SimError>)
    requires
        env.wf(),
        old(sim_obj).wf(),
    ensures
        final(sim_obj).wf(),
        final(sim_obj).id == old(sim_obj).id,
        final(sim_obj).kind == old(sim_obj).kind,
        r is Err ==> *final(sim_obj) == *old(sim_obj),
        r is Ok ==> stepped(env.objs(), *old(sim_obj), *final(sim_obj), step_time_s as int),
        r is Ok ==> step_error(env.objs(), *old(sim_obj), step_time_s as int) is None,
        r matches Err(e) ==> step_error(env.objs(), *old(sim_obj), step_time_s as int) == Some(e),
        match acceleration(env.objs(), old(sim_obj).position@, old(sim_obj).id) {
            Err(e) => r == Err::<Option<Vec<Perturbation>>, SimError>(e),
            Ok(a) => match euler_step(
                old(sim_obj).position@,
                old(sim_obj).velocity@,
                a,
                step_time_s as int,
            ) {
                None => r == Err::<Option<Vec<Perturbation>>, SimError>(
                    SimError::OutOfRange { id: old(sim_obj).id },
                ),
                Some((p, v)) => {
                    &&& final(sim_obj).position@ == p
                    &&& final(sim_obj).velocity@ == v
                    &&& r matches Ok(records) && records_ok(
                        records,
                        do_return_perturb,
                        env.objs(),
                        old(sim_obj).id,
                        env.sim_time_s,
                        old(sim_obj).position@,
                    )
                },
            },
        },
{
    let id = sim_obj.id;
    let (total, records) = calc_planet_perturb(sim_obj, env, do_return_perturb)?;
    let dv = match total.acceleration.mul_scalar(step_time_s) {
        Some(dv) => dv,
        None => {
            return Err(SimError::OutOfRange { id });
        },
    };
    let v = sim_obj.velocity.add(&dv);
    if !v.is_wf() {
        return Err(SimError::OutOfRange { id });
    }
    let dp = match v.mul_scalar(step_time_s) {
        Some(dp) => dp,
        None => {
            return Err(SimError::OutOfRange { id });
        },
    };
    let p = sim_obj.position.add(&dp);
    if !p.is_wf() {
        return Err(SimError::OutOfRange { id });
    }
    sim_obj.velocity = v;
    sim_obj.position = p;
    Ok(records)
}

} // verus!
