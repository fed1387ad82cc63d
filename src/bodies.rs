use vstd::prelude::*;
use crate::coords::CartesianCoords;
use crate::vector::Array3d;

verus! {

/// What a small body is.
#[derive(Clone, Copy, Debug, PartialEq, Eq, Structural)]
pub enum ObjKind {
    Spacecraft,
    Debris,
}

pub open spec fn kind_name(k: ObjKind) -> Seq<char> {
    match k {
        ObjKind::Spacecraft => "Spacecraft"@,
        ObjKind::Debris => "Debris"@,
    }
}

/// An object simulated by the propagator.
pub trait Simobj: Sized {
    spec fn spec_kind(&self) -> ObjKind;

    spec fn spec_id(&self) -> u32;

    /// The same object with its id replaced.
    spec fn spec_with_id(&self, id: u32) -> Self;

    /// The name of the object's kind.
    fn type_of(&self) -> (r: String)
        ensures
            r@ == kind_name(self.spec_kind()),
    ;

    fn get_id(&self) -> (r: u32)
        ensures
            r == self.spec_id(),
    ;

    /// A handle on the id; the rest of the object stays as it was.
    fn id_mut(&mut self) -> (r: &mut u32)
        ensures
            *r == old(self).spec_id(),
            *final(self) == old(self).spec_with_id(*final(r)),
    ;
}

/// A spacecraft as read from the input: geocentric position (micrometres)
/// and velocity (micrometres per second).
#[derive(Clone, Copy, Debug, PartialEq, Eq, Structural)]
pub struct Spacecraft {
    pub id: u32,
    pub position: Array3d,
    pub velocity: Array3d,
}

/// A piece of debris as read from the input, in the units of `Spacecraft`.
#[derive(Clone, Copy, Debug, PartialEq, Eq, Structural)]
pub struct Debris {
    pub id: u32,
    pub position: Array3d,
    pub velocity: Array3d,
}

/// A small body under propagation: geocentric position (micrometres) and
/// velocity (micrometres per second).
#[derive(Clone, Copy, Debug, PartialEq, Eq, Structural)]
pub struct SmallBody {
    pub id: u32,
    pub kind: ObjKind,
    pub position: Array3d,
    pub velocity: Array3d,
}

impl SmallBody {
    pub open spec fn wf(&self) -> bool {
        self.position.wf() && self.velocity.wf()
    }
}

impl Simobj for Spacecraft {
    open spec fn spec_kind(&self) -> ObjKind {
        ObjKind::Spacecraft
    }

    open spec fn spec_id(&self) -> u32 {
        self.id
    }

    open spec fn spec_with_id(&self, id: u32) -> Spacecraft {
        Spacecraft { id, ..*self }
    }

    fn type_of(&self) -> (r: String) {
        "Spacecraft".to_owned()
    }

    fn get_id(&self) -> (r: u32) {
        self.id
    }

    fn id_mut(&mut self) -> (r: &mut u32) {
        &mut self.id
    }
}

impl Simobj for Debris {
    open spec fn spec_kind(&self) -> ObjKind {
        ObjKind::Debris
    }

    open spec fn spec_id(&self) -> u32 {
        self.id
    }

    open spec fn spec_with_id(&self, id: u32) -> Debris {
        Debris { id, ..*self }
    }

    fn type_of(&self) -> (r: String) {
        "Debris".to_owned()
    }

    fn get_id(&self) -> (r: u32) {
        self.id
    }

    fn id_mut(&mut self) -> (r: &mut u32) {
        &mut self.id
    }
}

impl Simobj for SmallBody {
    open spec fn spec_kind(&self) -> ObjKind {
        self.kind
    }

    open spec fn spec_id(&self) -> u32 {
        self.id
    }

    open spec fn spec_with_id(&self, id: u32) -> SmallBody {
        SmallBody { id, ..*self }
    }

    fn type_of(&self) -> (r: String) {
        match self.kind {
            ObjKind::Spacecraft => "Spacecraft".to_owned(),
            ObjKind::Debris => "Debris".to_owned(),
        }
    }

    fn get_id(&self) -> (r: u32) {
        self.id
    }

    fn id_mut(&mut self) -> (r: &mut u32) {
        &mut self.id
    }
}

/// The bodies of one input file, before ids are assigned.
#[derive(Clone, Debug)]
pub struct InitData {
    /// The epoch, `YYYY-MM-DDTHH:MM:SS`.
    pub date: String,
    pub debris: Vec<Debris>,
    pub spacecraft: Vec<Spacecraft>,
}

/// Physical attributes of an ephemeris body.
#[derive(Clone, Copy, Debug, PartialEq, Eq, Structural)]
pub struct SolarAttr {
    pub radius_m: u64,
    pub mass_kg: u128,
    /// Gravitational parameter G·m in cubic micrometres per second squared.
    pub mu: u128,
}

/// The ephemeris bodies.
#[derive(Clone, Copy, Debug, PartialEq, Eq, Structural)]
pub enum Solarobj {
    Sun { attr: SolarAttr },
    Earth { attr: SolarAttr },
    Moon { attr: SolarAttr },
}

/// G·m of the Sun, with G = 6.674e-11 and m = 1.9891e30 kg, in µm³/s².
pub const MU_SUN: u128 = 132752534000000000000000000000000000000;

/// G·m of the Earth, with m = 5.9722e24 kg, in µm³/s².
pub const MU_EARTH: u128 = 398584628000000000000000000000000;

/// G·m of the Moon, with m = 7.346e22 kg, in µm³/s².
pub const MU_MOON: u128 = 4902720400000000000000000000000;

pub open spec fn sun_attr() -> SolarAttr {
    SolarAttr { radius_m: 695700000, mass_kg: 1989100000000000000000000000000, mu: MU_SUN }
}

pub open spec fn earth_attr() -> SolarAttr {
    SolarAttr { radius_m: 6378100, mass_kg: 5972200000000000000000000, mu: MU_EARTH }
}

pub open spec fn moon_attr() -> SolarAttr {
    SolarAttr { radius_m: 1738100, mass_kg: 73460000000000000000000, mu: MU_MOON }
}

impl Solarobj {
    pub open spec fn spec_attr(&self) -> SolarAttr {
        match *self {
            Solarobj::Sun { attr } => attr,
            Solarobj::Earth { attr } => attr,
            Solarobj::Moon { attr } => attr,
        }
    }

    pub open spec fn name(&self) -> Seq<char> {
        match *self {
            Solarobj::Sun { .. } => "Sun"@,
            Solarobj::Earth { .. } => "Earth"@,
            Solarobj::Moon { .. } => "Moon"@,
        }
    }

    pub fn sun() -> (r: Solarobj)
        ensures
            r == (Solarobj::Sun { attr: sun_attr() }),
    {
        Solarobj::Sun { attr: SolarAttr { radius_m: 695700000, mass_kg: 1989100000000000000000000000000, mu: MU_SUN } }
    }

    pub fn earth() -> (r: Solarobj)
        ensures
            r == (Solarobj::Earth { attr: earth_attr() }),
    {
        Solarobj::Earth { attr: SolarAttr { radius_m: 6378100, mass_kg: 5972200000000000000000000, mu: MU_EARTH } }
    }

    pub fn moon() -> (r: Solarobj)
        ensures
            r == (Solarobj::Moon { attr: moon_attr() }),
    {
        Solarobj::Moon { attr: SolarAttr { radius_m: 1738100, mass_kg: 73460000000000000000000, mu: MU_MOON } }
    }

    pub fn get_attr(&self) -> (r: SolarAttr)
        ensures
            r == self.spec_attr(),
    {
        match *self {
            Solarobj::Sun { attr } => attr,
            Solarobj::Earth { attr } => attr,
            Solarobj::Moon { attr } => attr,
        }
    }

    /// The body's name: `Sun`, `Earth` or `Moon`.
    pub fn to_name(&self) -> (r: String)
        ensures
            r@ == self.name(),
    {
        match *self {
            Solarobj::Sun { .. } => "Sun".to_owned(),
            Solarobj::Earth { .. } => "Earth".to_owned(),
            Solarobj::Moon { .. } => "Moon".to_owned(),
        }
    }
}

/// An ephemeris body with its last computed position.
#[derive(Clone, Copy, Debug, PartialEq, Eq, Structural)]
pub struct SolarBody {
    pub solartype: Solarobj,
    pub coords: CartesianCoords,
}

} // verus!
