//! Orbital propagation of small bodies under the gravity of the Sun, Earth
//! and Moon, on fixed-point integer state.
//!
//! Lengths are held in micrometres, velocities in micrometres per second and
//! accelerations in micrometres per second squared; ephemeris positions read
//! in astronomical units are held in atto-AU (1e-18 AU).
//!
//! The ephemeris holds the Sun, the Earth and the Moon in that order; the
//! Earth is the centric body, and small bodies move in its frame. Every
//! ephemeris body other than the Earth acts on a small body through the
//! difference between its pull on the small body and its pull on the Earth.
//! Positions of the Earth and the Moon come from their series, evaluated by
//! the caller; the library holds them, derives distances and accelerations
//! from them and integrates the small bodies by symplectic Euler steps.
mod vector;
mod coords;
mod bodies;
mod gravity;
mod environment;
mod perturb;
mod ephemeris;
mod epoch;
mod innout;
mod sim;

pub use vector::{Array3d, LIMIT};
pub use coords::{CartesianCoords, ATTO_AU_RATIO, MICROMETER_RATIO, AU_LIMIT};
pub use bodies::{ObjKind, Simobj, Spacecraft, Debris, SmallBody, InitData, SolarAttr, Solarobj, SolarBody, MU_SUN, MU_EARTH, MU_MOON};
pub use gravity::{newton_gravitational_field, isqrt_u128, FieldError, MIN_DISTANCE, UNIT_SCALE};
pub use environment::{Environment, solar_system_objs, update_solar_system_objs, SUN_INDEX, CENTRIC_INDEX, MOON_INDEX};
pub use perturb::{SimError, PerturbationDelta, Perturbation, body_perturbation, calc_planet_perturb, apply_perturbations};
pub use ephemeris::{sun_position, earth_position, moon_position};
pub use epoch::{epoch_seconds, EpochError, J2000_UNIX_SECONDS};
pub use innout::{parse_inpt, InputError};
pub use sim::{SimulationParameters, OutputRecord, solar_update_due, write_out_all_solar_objects, write_out_all_object_parameters, simulate_tick};
