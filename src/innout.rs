use vstd::prelude::*;
use crate::bodies::{Debris, InitData, ObjKind, SmallBody, Spacecraft};

verus! {

/// Why the bodies of an input could not be loaded.
#[derive(Clone, Copy, Debug, PartialEq, Eq, Structural)]
pub enum InputError {
    /// The body at this place of the load order (debris first, then
    /// spacecraft) has a component outside `[-LIMIT, LIMIT]`.
    OutOfRange { index: usize },
}

/// The small body loaded at place `i`: the debris in their order, then the
/// spacecraft in theirs, the id being the place.
pub open spec fn loaded_body(debris: Seq<Debris>, spacecraft: Seq<Spacecraft>, i: int) -> SmallBody {
    if i < debris.len() {
        SmallBody {
            id: i as u32,
            kind: ObjKind::Debris,
            position: debris[i].position,
            velocity: debris[i].velocity,
        }
    } else {
        let j = i - debris.len();
        SmallBody {
            id: i as u32,
            kind: ObjKind::Spacecraft,
            position: spacecraft[j].position,
            velocity: spacecraft[j].velocity,
        }
    }
}

/// Turns the bodies of an input into small bodies under propagation: debris
/// first, then spacecraft, each in its order, with ids 0, 1, 2, … in that
/// order. Fails at the first body out of range.
pub fn parse_inpt(data: &InitData) -> (r: Result<Vec<SmallBody>, InputError>)
    requires
        data.debris@.len() + data.spacecraft@.len() <= u32::MAX + 1,
    ensures
        match r {
            Ok(v) => {
                &&& v@.len() == data.debris@.len() + data.spacecraft@.len()
                &&& forall|i: int|
                    0 <= i < v@.len() ==> #[trigger] v@[i] == loaded_body(
                        data.debris@,
                        data.spacecraft@,
                        i,
                    ) && v@[i].wf()
            },
            Err(InputError::OutOfRange { index }) => {
                &&& index < data.debris@.len() + data.spacecraft@.len()
                &&& !loaded_body(data.debris@, data.spacecraft@, index as int).wf()
                &&& forall|i: int|
                    0 <= i < index ==> #[trigger] loaded_body(
                        data.debris@,
                        data.spacecraft@,
                        i,
                    ).wf()
            },
        },
{
    let mut sim_bodies: Vec<SmallBody> = Vec::new();
    let nd = data.debris.len();
    let ns = data.spacecraft.len();
    let mut i: usize = 0;
    while i < nd
        invariant
            i <= nd == data.debris@.len(),
            ns == data.spacecraft@.len(),
            nd + ns <= u32::MAX + 1,
            sim_bodies@.len() == i,
            forall|k: int|
                0 <= k < i ==> #[trigger] sim_bodies@[k] == loaded_body(
                    data.debris@,
                    data.spacecraft@,
                    k,
                ) && sim_bodies@[k].wf(),
        decreases nd - i,
    {
        let d = &data.debris[i];
        let b = SmallBody {
            id: i as u32,
            kind: ObjKind::Debris,
            position: d.position,
            velocity: d.velocity,
        };
        assert(b == loaded_body(data.debris@, data.spacecraft@, i as int));
        if !(b.position.is_wf() && b.velocity.is_wf()) {
            assert forall|k: int| 0 <= k < i implies #[trigger] loaded_body(
                data.debris@,
                data.spacecraft@,
                k,
            ).wf() by {
                assert(sim_bodies@[k].wf());
            }
            return Err(InputError::OutOfRange { index: i });
        }
        sim_bodies.push(b);
        i = i + 1;
    }
    let mut j: usize = 0;
    while j < ns
        invariant
            nd == data.debris@.len(),
            j <= ns == data.spacecraft@.len(),
            nd + ns <= u32::MAX + 1,
            sim_bodies@.len() == nd + j,
            forall|k: int|
                0 <= k < nd + j ==> #[trigger] sim_bodies@[k] == loaded_body(
                    data.debris@,
                    data.spacecraft@,
                    k,
                ) && sim_bodies@[k].wf(),
        decreases ns - j,
    {
        let s = &data.spacecraft[j];
        let b = SmallBody {
            id: (nd + j) as u32,
            kind: ObjKind::Spacecraft,
            position: s.position,
            velocity: s.velocity,
        };
        assert(b == loaded_body(data.debris@, data.spacecraft@, (nd + j) as int));
        if !(b.position.is_wf() && b.velocity.is_wf()) {
            assert forall|k: int| 0 <= k < nd + j implies #[trigger] loaded_body(
                data.debris@,
                data.spacecraft@,
                k,
            ).wf() by {
                assert(sim_bodies@[k].wf());
            }
            return Err(InputError::OutOfRange { index: nd + j });
        }
        sim_bodies.push(b);
        j = j + 1;
    }
    Ok(sim_bodies)
}

} // verus!
