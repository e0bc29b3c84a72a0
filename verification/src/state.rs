//! A snapshot of all bodies at one instant.
//!
//! Five index-aligned parallel sequences hold, for each body, a stable
//! identifier label, the mass, and the position, velocity and acceleration
//! vectors.  The alignment invariant — all five sequences have the same
//! length, and index `i` refers to the same logical body in each — holds for
//! the lifetime of the object: records are only ever appended one whole body
//! at a time, and thereafter only field values are replaced in place.

use vstd::prelude::*;

use crate::types::Numeric;
use crate::vec3::Vec3;

verus! {

/// The mathematical content of a [`State`]: one sequence per field, with
/// identifiers abstracted to character sequences.
#[verifier::ext_equal]
pub ghost struct StateModel<T> {
    pub ids: Seq<Seq<char>>,
    pub masses: Seq<T>,
    pub positions: Seq<Vec3<T>>,
    pub velocities: Seq<Vec3<T>>,
    pub accelerations: Seq<Vec3<T>>,
}

impl<T> StateModel<T> {
    /// The body count.
    pub open spec fn n(self) -> nat {
        self.ids.len()
    }

    /// The alignment invariant: all five sequences have the same length.
    pub open spec fn wf(self) -> bool {
        &&& self.masses.len() == self.n()
        &&& self.positions.len() == self.n()
        &&& self.velocities.len() == self.n()
        &&& self.accelerations.len() == self.n()
    }

    /// The model of a freshly created, still empty state.
    pub open spec fn empty() -> Self {
        StateModel {
            ids: Seq::empty(),
            masses: Seq::empty(),
            positions: Seq::empty(),
            velocities: Seq::empty(),
            accelerations: Seq::empty(),
        }
    }
}

/// Appending one aligned record preserves the alignment invariant and
/// grows all five sequences by exactly one: the body count rises by one.
pub proof fn lemma_add_entity_alignment<T>(
    before: StateModel<T>,
    id: Seq<char>,
    mass: T,
    position: Vec3<T>,
    velocity: Vec3<T>,
    acceleration: Vec3<T>,
)
    requires
        before.wf(),
    ensures
        ({
            let after = StateModel {
                ids: before.ids.push(id),
                masses: before.masses.push(mass),
                positions: before.positions.push(position),
                velocities: before.velocities.push(velocity),
                accelerations: before.accelerations.push(acceleration),
            };
            after.wf() && after.n() == before.n() + 1
        }),
{
}

/// The aggregate of all bodies at one step, as index-aligned parallel
/// sequences.
pub struct State<T> {
    id: Vec<String>,
    mass: Vec<T>,
    position: Vec<Vec3<T>>,
    velocity: Vec<Vec3<T>>,
    acceleration: Vec<Vec3<T>>,
}

impl<T> View for State<T> {
    type V = StateModel<T>;

    closed spec fn view(&self) -> StateModel<T> {
        StateModel {
            ids: self.id@.map_values(|s: String| s@),
            masses: self.mass@,
            positions: self.position@,
            velocities: self.velocity@,
            accelerations: self.acceleration@,
        }
    }
}

impl<T: Numeric> State<T> {
    /// Creates an empty state, to be populated by [`State::add_entity`].
    pub fn new() -> (r: Self)
        ensures
            r@ =~= StateModel::empty(),
    {
        Self {
            id: Vec::new(),
            mass: Vec::new(),
            position: Vec::new(),
            velocity: Vec::new(),
            acceleration: Vec::new(),
        }
    }

    /// Appends one aligned record to all five sequences.  Meant for the
    /// initial population of the state: appending once the simulation has
    /// started would break the fixed body count shared by all history
    /// slots.
    pub fn add_entity(
        &mut self,
        id: String,
        mass: T,
        position: Vec3<T>,
        velocity: Vec3<T>,
        acceleration: Vec3<T>,
    )
        ensures
            final(self)@.ids =~= old(self)@.ids.push(id@),
            final(self)@.masses == old(self)@.masses.push(mass),
            final(self)@.positions == old(self)@.positions.push(position),
            final(self)@.velocities == old(self)@.velocities.push(velocity),
            final(self)@.accelerations == old(self)@.accelerations.push(acceleration),
    {
        self.id.push(id);
        self.mass.push(mass);
        self.position.push(position);
        self.velocity.push(velocity);
        self.acceleration.push(acceleration);
    }

    /// The identifier label of the body at `index`.
    pub fn id(&self, index: usize) -> (r: &String)
        requires
            index < self@.n(),
        ensures
            r@ == self@.ids[index as int],
    {
        &self.id[index]
    }

    /// Replaces the identifier label of the body at `index`.
    pub fn set_id(&mut self, index: usize, id: String)
        requires
            index < old(self)@.n(),
        ensures
            final(self)@ =~= (StateModel { ids: old(self)@.ids.update(index as int, id@), ..old(self)@ }),
    {
        self.id.set(index, id);
    }

    /// All identifier labels, in body-index order.
    pub fn ids(&self) -> (r: &Vec<String>)
        ensures
            r@.map_values(|s: String| s@) == self@.ids,
    {
        &self.id
    }

    /// The mass of the body at `index`.
    pub fn mass(&self, index: usize) -> (r: T)
        requires
            index < self@.n(),
            self@.wf(),
        ensures
            r == self@.masses[index as int],
    {
        self.mass[index]
    }

    /// All masses, in body-index order.
    pub fn masses(&self) -> (r: &Vec<T>)
        ensures
            r@ == self@.masses,
    {
        &self.mass
    }

    /// Replaces the mass of the body at `index`.
    pub fn set_mass(&mut self, index: usize, mass: T)
        requires
            index < old(self)@.n(),
            old(self)@.wf(),
        ensures
            final(self)@ =~= (StateModel {
                masses: old(self)@.masses.update(index as int, mass),
                ..old(self)@
            }),
    {
        self.mass.set(index, mass);
    }

    /// The position of the body at `index`.
    pub fn position(&self, index: usize) -> (r: &Vec3<T>)
        requires
            index < self@.n(),
            self@.wf(),
        ensures
            *r == self@.positions[index as int],
    {
        &self.position[index]
    }

    /// All positions, in body-index order.
    pub fn positions(&self) -> (r: &Vec<Vec3<T>>)
        ensures
            r@ == self@.positions,
    {
        &self.position
    }

    /// Replaces the position of the body at `index`.
    pub fn set_position(&mut self, index: usize, position: Vec3<T>)
        requires
            index < old(self)@.n(),
            old(self)@.wf(),
        ensures
            final(self)@ =~= (StateModel {
                positions: old(self)@.positions.update(index as int, position),
                ..old(self)@
            }),
    {
        self.position.set(index, position);
    }

    /// The velocity of the body at `index`.
    pub fn velocity(&self, index: usize) -> (r: &Vec3<T>)
        requires
            index < self@.n(),
            self@.wf(),
        ensures
            *r == self@.velocities[index as int],
    {
        &self.velocity[index]
    }

    /// All velocities, in body-index order.
    pub fn velocities(&self) -> (r: &Vec<Vec3<T>>)
        ensures
            r@ == self@.velocities,
    {
        &self.velocity
    }

    /// Replaces the velocity of the body at `index`.
    pub fn set_velocity(&mut self, index: usize, velocity: Vec3<T>)
        requires
            index < old(self)@.n(),
            old(self)@.wf(),
        ensures
            final(self)@ =~= (StateModel {
                velocities: old(self)@.velocities.update(index as int, velocity),
                ..old(self)@
            }),
    {
        self.velocity.set(index, velocity);
    }

    /// The acceleration of the body at `index`.
    pub fn acceleration(&self, index: usize) -> (r: &Vec3<T>)
        requires
            index < self@.n(),
            self@.wf(),
        ensures
            *r == self@.accelerations[index as int],
    {
        &self.acceleration[index]
    }

    /// All accelerations, in body-index order.
    pub fn accelerations(&self) -> (r: &Vec<Vec3<T>>)
        ensures
            r@ == self@.accelerations,
    {
        &self.acceleration
    }

    /// Replaces the acceleration of the body at `index`.
    pub fn set_acceleration(&mut self, index: usize, acceleration: Vec3<T>)
        requires
            index < old(self)@.n(),
            old(self)@.wf(),
        ensures
            final(self)@ =~= (StateModel {
                accelerations: old(self)@.accelerations.update(index as int, acceleration),
                ..old(self)@
            }),
    {
        self.acceleration.set(index, acceleration);
    }
}

impl<T: Numeric> Clone for State<T> {
    /// Deep value copy of all five sequences, so that every history slot is
    /// an independent temporal snapshot.
    fn clone(&self) -> (r: Self)
        ensures
            r@ == self@,
    {
        let r = Self {
            id: cloned_labels(&self.id),
            mass: copied_values(&self.mass),
            position: copied_values(&self.position),
            velocity: copied_values(&self.velocity),
            acceleration: copied_values(&self.acceleration),
        };
        proof {
            assert(r@ =~= self@);
        }
        r
    }
}

/// An element-wise copy of a vector of plain values.
fn copied_values<U: Copy>(v: &Vec<U>) -> (r: Vec<U>)
    ensures
        r@ == v@,
{
    let mut r: Vec<U> = Vec::new();
    let mut i: usize = 0;
    while i < v.len()
        invariant
            i <= v.len(),
            r@.len() == i as int,
            forall|k: int| 0 <= k < i ==> r@[k] == v@[k],
        decreases v.len() - i,
    {
        r.push(v[i]);
        i = i + 1;
    }
    proof {
        assert(r@ =~= v@);
    }
    r
}

/// An element-wise copy of a vector of identifier labels.
fn cloned_labels(v: &Vec<String>) -> (r: Vec<String>)
    ensures
        r@ == v@,
{
    let mut r: Vec<String> = Vec::new();
    let mut i: usize = 0;
    while i < v.len()
        invariant
            i <= v.len(),
            r@.len() == i as int,
            forall|k: int| 0 <= k < i ==> r@[k] == v@[k],
        decreases v.len() - i,
    {
        r.push(v[i].clone());
        i = i + 1;
    }
    proof {
        assert(r@ =~= v@);
    }
    r
}

} // verus!
