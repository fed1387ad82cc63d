use vstd::prelude::*;
use crate::bodies::{SolarBody, Solarobj};
use crate::coords::CartesianCoords;
use crate::gravity::MU_LIMIT;
use crate::vector::{vin_range, vsub, Array3d};

verus! {

/// Index of the Sun in the ephemeris.
pub const SUN_INDEX: usize = 0;

/// Index of the Earth, the centric body: small bodies are held relative to it.
pub const CENTRIC_INDEX: usize = 1;

/// Index of the Moon.
pub const MOON_INDEX: usize = 2;

/// The coordinates in micrometres.
pub open spec fn meters_of(c: CartesianCoords) -> CartesianCoords {
    CartesianCoords {
        is_meters: true,
        heliocentric: c.heliocentric,
        xh: c.um_components().0 as i128,
        yh: c.um_components().1 as i128,
        zh: c.um_components().2 as i128,
    }
}

/// The ephemeris holds the Sun, the Earth and the Moon in that order, in
/// atto-AU, the Sun and the Earth heliocentric and the Moon geocentric.
pub open spec fn solar_objs_wf(s: Seq<SolarBody>) -> bool {
    &&& s.len() == 3
    &&& s[SUN_INDEX as int].solartype == sun_obj()
    &&& s[CENTRIC_INDEX as int].solartype == earth_obj()
    &&& s[MOON_INDEX as int].solartype == moon_obj()
    &&& s[SUN_INDEX as int].coords.heliocentric
    &&& s[CENTRIC_INDEX as int].coords.heliocentric
    &&& !s[MOON_INDEX as int].coords.heliocentric
    &&& forall|k: int|
        0 <= k < 3 ==> {
            &&& !(#[trigger] s[k].coords.is_meters)
            &&& s[k].coords.wf()
            &&& s[k].solartype.spec_attr().mu <= MU_LIMIT
        }
}

/// Position of the ephemeris body `k` relative to the centric body, in
/// micrometres.
pub open spec fn centric_position(s: Seq<SolarBody>, k: int) -> (int, int, int) {
    if s[k].coords.heliocentric {
        vsub(s[k].coords.um_components(), s[CENTRIC_INDEX as int].coords.um_components())
    } else {
        s[k].coords.um_components()
    }
}

/// Where a body of the kind `kind` stands, given the Earth and the Moon.
pub open spec fn position_for(kind: Solarobj, earth: CartesianCoords, moon: CartesianCoords) -> CartesianCoords {
    match kind {
        Solarobj::Sun { .. } => CartesianCoords::spec_origin(),
        Solarobj::Earth { .. } => earth,
        Solarobj::Moon { .. } => moon,
    }
}

/// The three ephemeris bodies at the given positions.
pub open spec fn solar_objs_at(earth: CartesianCoords, moon: CartesianCoords) -> Seq<SolarBody> {
    seq![
        SolarBody { solartype: sun_obj(), coords: CartesianCoords::spec_origin() },
        SolarBody { solartype: earth_obj(), coords: earth },
        SolarBody { solartype: moon_obj(), coords: moon },
    ]
}

pub open spec fn sun_obj() -> Solarobj {
    Solarobj::Sun { attr: crate::bodies::sun_attr() }
}

pub open spec fn earth_obj() -> Solarobj {
    Solarobj::Earth { attr: crate::bodies::earth_attr() }
}

pub open spec fn moon_obj() -> Solarobj {
    Solarobj::Moon { attr: crate::bodies::moon_attr() }
}

/// Positions that the ephemeris accepts for the Earth and the Moon: in
/// atto-AU, the Earth heliocentric and the Moon geocentric.
pub open spec fn ephemeris_input_ok(earth: CartesianCoords, moon: CartesianCoords) -> bool {
    &&& earth.wf() && !earth.is_meters && earth.heliocentric
    &&& moon.wf() && !moon.is_meters && !moon.heliocentric
}

/// A copy of the coordinates in micrometres.
pub fn in_meters(c: CartesianCoords) -> (r: CartesianCoords)
    requires
        c.wf(),
    ensures
        r == meters_of(c),
        r.wf(),
{
    let mut m = c;
    m.to_meters();
    m
}

/// Creates the ephemeris: the Sun at the origin, then the Earth
/// (heliocentric) and the Moon (geocentric) at the given positions, all in
/// atto-AU.
pub fn solar_system_objs(earth: CartesianCoords, moon: CartesianCoords) -> (r: Vec<SolarBody>)
    requires
        ephemeris_input_ok(earth, moon),
    ensures
        r@ == solar_objs_at(earth, moon),
        solar_objs_wf(r@),
{
    let mut v: Vec<SolarBody> = Vec::new();
    v.push(SolarBody { solartype: Solarobj::sun(), coords: CartesianCoords::origin() });
    v.push(SolarBody { solartype: Solarobj::earth(), coords: earth });
    v.push(SolarBody { solartype: Solarobj::moon(), coords: moon });
    v
}

/// Moves each body of `ss_objs` to its new position: the Sun to the origin,
/// an Earth to `earth` and a Moon to `moon`. The bodies, their kinds and
/// their order are kept.
pub fn update_solar_system_objs(
    ss_objs: &mut Vec<SolarBody>,
    earth: CartesianCoords,
    moon: CartesianCoords,
)
    ensures
        final(ss_objs)@.len() == old(ss_objs)@.len(),
        forall|i: int|
            0 <= i < old(ss_objs)@.len() ==> #[trigger] final(ss_objs)@[i] == (SolarBody {
                solartype: old(ss_objs)@[i].solartype,
                coords: position_for(old(ss_objs)@[i].solartype, earth, moon),
            }),
{
    let ghost old_objs = ss_objs@;
    let n = ss_objs.len();
    let mut i: usize = 0;
    while i < n
        invariant
            n == ss_objs@.len() == old_objs.len(),
            i <= n,
            forall|j: int| i <= j < n ==> #[trigger] ss_objs@[j] == old_objs[j],
            forall|j: int|
                0 <= j < i ==> #[trigger] ss_objs@[j] == (SolarBody {
                    solartype: old_objs[j].solartype,
                    coords: position_for(old_objs[j].solartype, earth, moon),
                }),
        decreases n - i,
    {
        let kind = ss_objs[i].solartype;
        let coords = match kind {
            Solarobj::Sun { .. } => CartesianCoords::origin(),
            Solarobj::Earth { .. } => earth,
            Solarobj::Moon { .. } => moon,
        };
        ss_objs[i] = SolarBody { solartype: kind, coords };
        i = i + 1;
    }
}

/// The state shared by every small body: the clock and the ephemeris.
pub struct Environment {
    /// The start of the run, in seconds since 2000-01-01T00:00:00.
    pub epoch_s: i64,
    /// Seconds since the start of the run.
    pub sim_time_s: i64,
    /// Value of `sim_time_s` when the ephemeris was last computed.
    pub last_day_update_s: i64,
    pub solar_objs: Vec<SolarBody>,
}

impl Environment {
    pub open spec fn wf(&self) -> bool {
        solar_objs_wf(self.objs())
    }

    pub open spec fn objs(&self) -> Seq<SolarBody> {
        self.solar_objs@
    }

    /// An environment at the start of a run beginning at `epoch_s`, with the
    /// ephemeris at the given positions.
    pub fn new(epoch_s: i64, earth: CartesianCoords, moon: CartesianCoords) -> (r: Environment)
        requires
            ephemeris_input_ok(earth, moon),
        ensures
            r.wf(),
            r.objs() == solar_objs_at(earth, moon),
            r.epoch_s == epoch_s,
            r.sim_time_s == 0,
            r.last_day_update_s == 0,
    {
        Environment {
            epoch_s,
            sim_time_s: 0,
            last_day_update_s: 0,
            solar_objs: solar_system_objs(earth, moon),
        }
    }

    /// Replaces the ephemeris with the given positions, taken at the current
    /// time, and records that time as the last update.
    pub fn update(&mut self, earth: CartesianCoords, moon: CartesianCoords)
        requires
            old(self).wf(),
            ephemeris_input_ok(earth, moon),
        ensures
            final(self).wf(),
            final(self).objs() == solar_objs_at(earth, moon),
            final(self).epoch_s == old(self).epoch_s,
            final(self).sim_time_s == old(self).sim_time_s,
            final(self).last_day_update_s == old(self).sim_time_s,
    {
        update_solar_system_objs(&mut self.solar_objs, earth, moon);
        assert(self.solar_objs@[0] == solar_objs_at(earth, moon)[0]);
        assert(self.solar_objs@[1] == solar_objs_at(earth, moon)[1]);
        assert(self.solar_objs@[2] == solar_objs_at(earth, moon)[2]);
        assert(self.solar_objs@ =~= solar_objs_at(earth, moon));
        self.last_day_update_s = self.sim_time_s;
    }

    /// The ephemeris bodies: Sun, Earth, Moon.
    pub fn get_solar_objects(&self) -> (r: &Vec<SolarBody>)
        ensures
            r@ == self.objs(),
    {
        &self.solar_objs
    }

    /// Vector from `pos` (geocentric, micrometres) to the ephemeris body
    /// `planet_idx`; `None` where a component leaves `[-LIMIT, LIMIT]`.
    pub fn distance_to(&self, pos: &Array3d, planet_idx: usize) -> (r: Option<Array3d>)
        requires
            self.wf(),
            pos.wf(),
            planet_idx < 3,
        ensures
            r.is_some() <==> vin_range(vsub(centric_position(self.objs(), planet_idx as int), pos@)),
            r.is_some() ==> r.unwrap()@ == vsub(
                centric_position(self.objs(), planet_idx as int),
                pos@,
            ),
    {
        let c = self.centric_position(planet_idx);
        let d = Array3d { x: c.x - pos.x, y: c.y - pos.y, z: c.z - pos.z };
        if d.is_wf() {
            Some(d)
        } else {
            None
        }
    }

    /// Position of the ephemeris body `planet_idx` relative to the centric
    /// body, in micrometres; each component within twice `LIMIT`.
    pub fn centric_position(&self, planet_idx: usize) -> (r: Array3d)
        requires
            self.wf(),
            planet_idx < 3,
        ensures
            r@ == centric_position(self.objs(), planet_idx as int),
            -2 * crate::vector::LIMIT <= r.x <= 2 * crate::vector::LIMIT,
            -2 * crate::vector::LIMIT <= r.y <= 2 * crate::vector::LIMIT,
            -2 * crate::vector::LIMIT <= r.z <= 2 * crate::vector::LIMIT,
    {
        let kc = self.solar_objs[planet_idx].coords;
        let cc = self.solar_objs[CENTRIC_INDEX].coords;
        assert(kc.wf() && cc.wf()) by {
            assert(!self.solar_objs@[planet_idx as int].coords.is_meters);
            assert(!self.solar_objs@[CENTRIC_INDEX as int].coords.is_meters);
        }
        let k = in_meters(kc);
        let c = in_meters(cc);
        if k.heliocentric {
            Array3d { x: (k.xh - c.xh) as i64, y: (k.yh - c.yh) as i64, z: (k.zh - c.zh) as i64 }
        } else {
            Array3d { x: k.xh as i64, y: k.yh as i64, z: k.zh as i64 }
        }
    }
}

} // verus!
