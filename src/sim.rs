use vstd::prelude::*;
use crate::bodies::{SmallBody, SolarBody, Solarobj};
use crate::coords::CartesianCoords;
use crate::environment::{in_meters, meters_of, solar_objs_wf, Environment};
use crate::perturb::{
    apply_perturbations, lemma_acceleration_error, contribution, is_record, step_error, stepped,
    Perturbation, SimError,
};

verus! {

/// Step lengths of a run, in seconds.
#[derive(Clone, Copy, Debug, PartialEq, Eq, Structural)]
pub struct SimulationParameters {
    /// Length of one tick.
    pub sim_time_step: i64,
    /// Time between two computations of the ephemeris.
    pub sim_solar_step: i64,
}

/// A row of the simulation's output.
#[derive(Clone, Copy, Debug, PartialEq, Eq, Structural)]
pub enum OutputRecord {
    /// Where an ephemeris body is.
    SolarObject { sim_time: i64, body: Solarobj, coords: CartesianCoords },
    /// One contribution to a small body's acceleration.
    Perturbation { perturbation: Perturbation },
    /// A small body's state.
    ObjectState { sim_time: i64, object: SmallBody },
}

/// Whether the ephemeris is to be written out and computed anew before the
/// next tick: on the first tick, and once `sim_solar_step` seconds have
/// passed since it was last computed (so on every tick where that is no more
/// than the tick's length).
pub fn solar_update_due(env: &Environment, first_tick: bool, params: &SimulationParameters) -> (r:
    bool)
    ensures
        r == (first_tick || env.sim_time_s - env.last_day_update_s >= params.sim_solar_step),
{
    first_tick || (env.sim_time_s as i128) - (env.last_day_update_s as i128)
        >= params.sim_solar_step as i128
}

/// One record per ephemeris body, in the ephemeris' order (Sun, Earth, Moon),
/// at the current time, with its position in micrometres.
pub fn write_out_all_solar_objects(env: &Environment) -> (r: Vec<OutputRecord>)
    requires
        env.wf(),
    ensures
        r@.len() == 3,
        forall|k: int|
            0 <= k < 3 ==> #[trigger] r@[k] == (OutputRecord::SolarObject {
                sim_time: env.sim_time_s,
                body: env.objs()[k].solartype,
                coords: meters_of(env.objs()[k].coords),
            }),
{
    let mut out: Vec<OutputRecord> = Vec::new();
    let objs = env.get_solar_objects();
    let mut k: usize = 0;
    while k < 3
        invariant
            k <= 3,
            objs@ == env.objs(),
            solar_objs_wf(objs@),
            out@.len() == k,
            forall|j: int|
                0 <= j < k ==> #[trigger] out@[j] == (OutputRecord::SolarObject {
                    sim_time: env.sim_time_s,
                    body: env.objs()[j].solartype,
                    coords: meters_of(env.objs()[j].coords),
                }),
        decreases 3 - k,
    {
        out.push(
            OutputRecord::SolarObject {
                sim_time: env.sim_time_s,
                body: objs[k].solartype,
                coords: in_meters(objs[k].coords),
            },
        );
        k = k + 1;
    }
    out
}

/// One state record per small body, in their order, at the current time.
pub fn write_out_all_object_parameters(env: &Environment, sim_objects: &Vec<SmallBody>) -> (r: Vec<
    OutputRecord,
>)
    ensures
        r@.len() == sim_objects@.len(),
        forall|i: int|
            0 <= i < r@.len() ==> #[trigger] r@[i] == (OutputRecord::ObjectState {
                sim_time: env.sim_time_s,
                object: sim_objects@[i],
            }),
{
    let mut out: Vec<OutputRecord> = Vec::new();
    let mut i: usize = 0;
    while i < sim_objects.len()
        invariant
            i <= sim_objects@.len(),
            out@.len() == i,
            forall|j: int|
                0 <= j < i ==> #[trigger] out@[j] == (OutputRecord::ObjectState {
                    sim_time: env.sim_time_s,
                    object: sim_objects@[j],
                }),
        decreases sim_objects@.len() - i,
    {
        out.push(OutputRecord::ObjectState { sim_time: env.sim_time_s, object: sim_objects[i] });
        i = i + 1;
    }
    out
}

/// `out[3 * i + k]` is the contribution of the ephemeris body `k` to the
/// small body `bodies[i]`, for the first `n` bodies.
#[verifier::opaque]
pub open spec fn perturbation_rows(
    out: Seq<OutputRecord>,
    s: Seq<SolarBody>,
    bodies: Seq<SmallBody>,
    t: i64,
    n: int,
) -> bool {
    forall|i: int, k: int|
        0 <= i < n && 0 <= k < 3 ==> (#[trigger] out[3 * i + k] matches OutputRecord::Perturbation {
            perturbation,
        } && is_record(
            perturbation,
            s[k].solartype,
            bodies[i].id,
            t,
            contribution(s, k, bodies[i].position@, bodies[i].id),
        ))
}

fn push_rows(out: &mut Vec<OutputRecord>, records: &Vec<Perturbation>)
    requires
        records@.len() == 3,
    ensures
        final(out)@ == old(out)@ + seq![
            OutputRecord::Perturbation { perturbation: records@[0] },
            OutputRecord::Perturbation { perturbation: records@[1] },
            OutputRecord::Perturbation { perturbation: records@[2] },
        ],
{
    out.push(OutputRecord::Perturbation { perturbation: records[0] });
    out.push(OutputRecord::Perturbation { perturbation: records[1] });
    out.push(OutputRecord::Perturbation { perturbation: records[2] });
}

proof fn lemma_rows_extend(
    before: Seq<OutputRecord>,
    after: Seq<OutputRecord>,
    records: Seq<Perturbation>,
    s: Seq<SolarBody>,
    bodies: Seq<SmallBody>,
    t: i64,
    i: int,
)
    requires
        0 <= i < bodies.len(),
        before.len() == 3 * i,
        perturbation_rows(before, s, bodies, t, i),
        records.len() == 3,
        forall|k: int|
            0 <= k < 3 ==> is_record(
                #[trigger] records[k],
                s[k].solartype,
                bodies[i].id,
                t,
                contribution(s, k, bodies[i].position@, bodies[i].id),
            ),
        after == before + seq![
            OutputRecord::Perturbation { perturbation: records[0] },
            OutputRecord::Perturbation { perturbation: records[1] },
            OutputRecord::Perturbation { perturbation: records[2] },
        ],
    ensures
        after.len() == 3 * (i + 1),
        perturbation_rows(after, s, bodies, t, i + 1),
{
    reveal(perturbation_rows);
    assert forall|j: int, k: int| 0 <= j < i + 1 && 0 <= k < 3 implies (
    #[trigger] after[3 * j + k] matches OutputRecord::Perturbation { perturbation } && is_record(
        perturbation,
        s[k].solartype,
        bodies[j].id,
        t,
        contribution(s, k, bodies[j].position@, bodies[j].id),
    )) by {
        if j < i {
            assert(3 * j + k < 3 * i) by (nonlinear_arith)
                requires
                    0 <= j < i,
                    0 <= k < 3,
            ;
            assert(after[3 * j + k] == before[3 * j + k]);
        } else {
            assert(after[3 * j + k] == OutputRecord::Perturbation { perturbation: records[k] });
        }
    }
}

/// One tick of `dt` seconds for each small body, in order: the bodies after
/// it, and the three contributions to each body's acceleration, body after
/// body. Stops at the first body whose step fails.
fn step_bodies(sim_bodies: &Vec<SmallBody>, env: &Environment, dt: i64) -> (r: Result<
    (Vec<SmallBody>, Vec<OutputRecord>),
    SimError,
>)
    requires
        env.wf(),
        forall|i: int| 0 <= i < sim_bodies@.len() ==> (#[trigger] sim_bodies@[i]).wf(),
    ensures
        match r {
            Ok((stepped_bodies, out)) => {
                let n = sim_bodies@.len() as int;
                &&& stepped_bodies@.len() == n
                &&& forall|i: int|
                    0 <= i < n ==> stepped(
                        env.objs(),
                        #[trigger] sim_bodies@[i],
                        stepped_bodies@[i],
                        dt as int,
                    )
                &&& forall|i: int|
                    0 <= i < n ==> step_error(env.objs(), #[trigger] sim_bodies@[i], dt as int) is None
                &&& out@.len() == 3 * n
                &&& perturbation_rows(out@, env.objs(), sim_bodies@, env.sim_time_s, n)
            },
            Err(e) => {
                &&& !(e is ClockOverflow)
                &&& exists|i: int|
                    0 <= i < sim_bodies@.len() && step_error(
                        env.objs(),
                        #[trigger] sim_bodies@[i],
                        dt as int,
                    ) == Some(e) && forall|j: int|
                        0 <= j < i ==> step_error(
                            env.objs(),
                            #[trigger] sim_bodies@[j],
                            dt as int,
                        ) is None
            },
        },
{
    let ghost old_bodies = sim_bodies@;
    let n = sim_bodies.len();
    let t = env.sim_time_s;
    let mut out: Vec<OutputRecord> = Vec::new();
    let mut stepped_bodies: Vec<SmallBody> = Vec::new();
    let mut i: usize = 0;
    assert(perturbation_rows(out@, env.objs(), old_bodies, t, 0)) by {
        reveal(perturbation_rows);
    }
    while i < n
        invariant
            n == sim_bodies@.len() == old_bodies.len(),
            sim_bodies@ == old_bodies,
            i <= n,
            env.wf(),
            env.sim_time_s == t,
            forall|j: int| 0 <= j < n ==> (#[trigger] old_bodies[j]).wf(),
            stepped_bodies@.len() == i,
            forall|j: int|
                0 <= j < i ==> stepped(
                    env.objs(),
                    #[trigger] old_bodies[j],
                    stepped_bodies@[j],
                    dt as int,
                ),
            forall|j: int| 0 <= j < i ==> step_error(env.objs(), #[trigger] old_bodies[j], dt as int) is None,
            out@.len() == 3 * i,
            perturbation_rows(out@, env.objs(), old_bodies, t, i as int),
        decreases n - i,
    {
        let mut b = sim_bodies[i];
        match apply_perturbations(&mut b, env, dt, true) {
            Err(e) => {
                proof {
                    lemma_acceleration_error(env.objs(), old_bodies[i as int].position@, old_bodies[i as int].id);
                }
                assert(step_error(env.objs(), old_bodies[i as int], dt as int) == Some(e));
                return Err(e);
            },
            Ok(records) => {
                let records = records.unwrap();
                let ghost before = out@;
                push_rows(&mut out, &records);
                stepped_bodies.push(b);
                proof {
                    lemma_rows_extend(before, out@, records@, env.objs(), old_bodies, t, i as int);
                }
            },
        }
        i = i + 1;
    }
    Ok((stepped_bodies, out))
}

/// Runs one tick of every small body, in order, and then advances the clock
/// by `sim_time_step`. The records come as the propagator emits them: the
/// three contributions of each body, body after body, then the state of each
/// body after its step. Stops at the first body whose step fails.
pub fn simulate_tick(
    sim_bodies: &mut Vec<SmallBody>,
    env: &mut Environment,
    params: &SimulationParameters,
) -> (r: Result<Vec<OutputRecord>, SimError>)
    requires
        old(env).wf(),
        forall|i: int| 0 <= i < old(sim_bodies)@.len() ==> (#[trigger] old(sim_bodies)@[i]).wf(),
    ensures
        final(env).wf(),
        final(env).objs() == old(env).objs(),
        final(env).epoch_s == old(env).epoch_s,
        final(env).last_day_update_s == old(env).last_day_update_s,
        final(sim_bodies)@.len() == old(sim_bodies)@.len(),
        forall|i: int| 0 <= i < final(sim_bodies)@.len() ==> (#[trigger] final(sim_bodies)@[i]).wf(),
        r is Err ==> final(sim_bodies)@ == old(sim_bodies)@,
        match r {
            Ok(out) => {
                let n = old(sim_bodies)@.len() as int;
                let t = old(env).sim_time_s;
                &&& final(env).sim_time_s == t + params.sim_time_step
                &&& forall|i: int|
                    0 <= i < n ==> stepped(
                        old(env).objs(),
                        #[trigger] old(sim_bodies)@[i],
                        final(sim_bodies)@[i],
                        params.sim_time_step as int,
                    )
                &&& out@.len() == 4 * n
                &&& perturbation_rows(out@, old(env).objs(), old(sim_bodies)@, t, n)
                &&& forall|i: int|
                    0 <= i < n ==> #[trigger] out@[3 * n + i] == (OutputRecord::ObjectState {
                        sim_time: t,
                        object: final(sim_bodies)@[i],
                    })
            },
            Err(SimError::ClockOverflow) => {
                &&& final(env).sim_time_s == old(env).sim_time_s
                &&& forall|i: int|
                    0 <= i < old(sim_bodies)@.len() ==> step_error(
                        old(env).objs(),
                        #[trigger] old(sim_bodies)@[i],
                        params.sim_time_step as int,
                    ) is None
                &&& !(i64::MIN <= old(env).sim_time_s + params.sim_time_step <= i64::MAX)
            },
            Err(e) => {
                &&& final(env).sim_time_s == old(env).sim_time_s
                &&& exists|i: int|
                    0 <= i < old(sim_bodies)@.len() && step_error(
                        old(env).objs(),
                        #[trigger] old(sim_bodies)@[i],
                        params.sim_time_step as int,
                    ) == Some(e) && forall|j: int|
                        0 <= j < i ==> step_error(
                            old(env).objs(),
                            #[trigger] old(sim_bodies)@[j],
                            params.sim_time_step as int,
                        ) is None
            },
        },
{
    let ghost old_bodies = sim_bodies@;
    let n = sim_bodies.len();
    let dt = params.sim_time_step;
    let t = env.sim_time_s;
    let (stepped_bodies, mut out) = step_bodies(sim_bodies, env, dt)?;
    if (t as i128) + (dt as i128) < i64::MIN as i128 || (t as i128) + (dt as i128) > i64::MAX as i128 {
        return Err(SimError::ClockOverflow);
    }
    *sim_bodies = stepped_bodies;
    let mut states = write_out_all_object_parameters(env, sim_bodies);
    let ghost before = out@;
    out.append(&mut states);
    assert(perturbation_rows(out@, env.objs(), old_bodies, t, n as int)) by {
        reveal(perturbation_rows);
        assert forall|j: int, k: int| 0 <= j < n && 0 <= k < 3 implies #[trigger] out@[3 * j + k] == before[3 * j + k] by {
            assert(3 * j + k < 3 * n) by (nonlinear_arith)
                requires
                    0 <= j < n,
                    0 <= k < 3,
            ;
        }
    }
    env.sim_time_s = t + dt;
    assert forall|j: int| 0 <= j < n implies (#[trigger] sim_bodies@[j]).wf() by {
        assert(stepped(env.objs(), old_bodies[j], sim_bodies@[j], dt as int));
    }
    Ok(out)
}

} // verus!
