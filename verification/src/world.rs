//! The world: the engine's body and collider sets, and the rule that caps
//! how many bodies may live in them.

use crate::engine::{
    bodies_in, body_count, collider_count, colliders_in, insert_attached_collider, insert_body,
    insert_collider, lookup_body, new_body_set, new_collider_set, stored_colliders,
};
use rapier2d::dynamics::{RigidBody, RigidBodySet};
use rapier2d::geometry::{Collider, ColliderSet};
use vstd::prelude::*;

verus! {

/// Identity of a dynamic body: a slot of the engine's arena and the
/// generation the slot had when the body was stored.
#[derive(Clone, Copy, Debug, PartialEq, Eq, Structural, Hash)]
pub struct BodyHandle {
    pub index: u32,
    pub generation: u32,
}

/// Identity of a static wall collider.
#[derive(Clone, Copy, Debug, PartialEq, Eq, Structural, Hash)]
pub struct WallHandle {
    pub index: u32,
    pub generation: u32,
}

/// Why a world operation was refused.
#[derive(Clone, Copy, Debug, PartialEq, Eq, Structural)]
pub enum WorldError {
    /// The handle names no body of this world.
    InvalidHandle,
    /// The world already holds as many bodies as its capacity allows.
    WorldFull,
}

impl BodyHandle {
    /// The handle as the pair the engine's arena knows it by.
    pub open spec fn id(self) -> (u32, u32) {
        (self.index, self.generation)
    }
}

impl WallHandle {
    /// The handle as the pair the engine's arena knows it by.
    pub open spec fn id(self) -> (u32, u32) {
        (self.index, self.generation)
    }
}

/// The single owner of all physics entities.
///
/// The fields are public so that the caller's stepper can hand the two sets
/// to the engine's pipeline; everything this crate inserts goes through the
/// methods below.
pub struct World {
    /// The dynamic bodies.
    pub bodies: RigidBodySet,
    /// The shapes: static walls, and one shape per ball.
    pub colliders: ColliderSet,
    /// The most bodies the world accepts.
    pub capacity: usize,
}

/// Every body of `before` is in `after` under the same handle and is the
/// same body: position, velocity and all else.
pub open spec fn bodies_kept(before: World, after: World) -> bool {
    forall|handle: BodyHandle|
        before.has_body(handle) ==> after.has_body(handle) && #[trigger] after.body_at(handle)
            == before.body_at(handle)
}

/// Every collider of `before` is in `after` under the same handle and is the
/// same collider: shape, translation, restitution and parent.
pub open spec fn shapes_kept(before: World, after: World) -> bool {
    forall|id: (u32, u32)|
        before.shapes().dom().contains(id) ==> {
            &&& after.shapes().dom().contains(id)
            &&& after.shapes()[id] == before.shapes()[id]
            &&& #[trigger] after.shape_at(id) == before.shape_at(id)
        }
}

/// `after` is `before` with one ball added under `handle`: the handle named
/// no body before, every earlier body keeps its handle and is untouched,
/// exactly one collider was added, under a handle no collider had and with
/// the new body as its parent, every earlier collider is untouched, and the
/// capacity is the same.
pub open spec fn ball_added(before: World, after: World, handle: BodyHandle) -> bool {
    &&& !before.has_body(handle)
    &&& after.body_ids() == before.body_ids().insert(handle.id())
    &&& bodies_kept(before, after)
    &&& after.capacity == before.capacity
    &&& exists|shape_id: (u32, u32)|
        {
            &&& !before.shapes().dom().contains(shape_id)
            &&& after.shapes() == #[trigger] before.shapes().insert(shape_id, Some(handle.id()))
        }
    &&& shapes_kept(before, after)
}

impl World {
    /// The handles of the bodies that live in this world.
    pub open spec fn body_ids(&self) -> Set<(u32, u32)> {
        bodies_in(self.bodies).dom()
    }

    /// The colliders that live in this world, walls and ball shapes alike:
    /// each collider's handle, with the handle of the body it is attached
    /// to, or `None` for a wall.
    pub open spec fn shapes(&self) -> Map<(u32, u32), Option<(u32, u32)>> {
        colliders_in(self.colliders)
    }

    /// The collider stored under the collider handle `id`, where `shapes()`
    /// holds `id`.
    pub open spec fn shape_at(&self, id: (u32, u32)) -> Collider {
        stored_colliders(self.colliders)[id]
    }

    /// `handle` names a body of this world.
    pub open spec fn has_body(&self, handle: BodyHandle) -> bool {
        self.body_ids().contains(handle.id())
    }

    /// The body that `handle` names, where `has_body(handle)`.
    pub open spec fn body_at(&self, handle: BodyHandle) -> RigidBody {
        bodies_in(self.bodies)[handle.id()]
    }

    /// An empty world that accepts bodies until the machine's address space
    /// is exhausted.
    pub fn new() -> (world: Self)
        ensures
            world.body_ids() == Set::<(u32, u32)>::empty(),
            world.shapes().dom() == Set::<(u32, u32)>::empty(),
            world.capacity == usize::MAX,
    {
        World { bodies: new_body_set(), colliders: new_collider_set(), capacity: usize::MAX }
    }

    /// An empty world that refuses a new body once it holds `capacity` of them.
    pub fn with_capacity(capacity: usize) -> (world: Self)
        ensures
            world.body_ids() == Set::<(u32, u32)>::empty(),
            world.shapes().dom() == Set::<(u32, u32)>::empty(),
            world.capacity == capacity,
    {
        World { bodies: new_body_set(), colliders: new_collider_set(), capacity }
    }

    /// Number of bodies in the world.
    pub fn body_count(&self) -> (n: usize)
        ensures
            self.body_ids().finite(),
            n == self.body_ids().len(),
    {
        body_count(&self.bodies)
    }

    /// Number of colliders in the world, walls and ball shapes alike.
    pub fn collider_count(&self) -> (n: usize)
        ensures
            self.shapes().dom().finite(),
            n == self.shapes().dom().len(),
    {
        collider_count(&self.colliders)
    }

    /// Whether `handle` names a body of this world.
    pub fn contains(&self, handle: BodyHandle) -> (found: bool)
        ensures
            found == self.has_body(handle),
    {
        lookup_body(&self.bodies, (handle.index, handle.generation)).is_some()
    }

    /// The body that `handle` names, for the caller to inspect.
    ///
    /// Fails with `InvalidHandle` exactly when the world holds no body under
    /// that handle.
    pub fn body(&self, handle: BodyHandle) -> (found: Result<&RigidBody, WorldError>)
        ensures
            found == if self.has_body(handle) {
                Ok::<&RigidBody, WorldError>(&self.body_at(handle))
            } else {
                Err::<&RigidBody, WorldError>(WorldError::InvalidHandle)
            },
    {
        match lookup_body(&self.bodies, (handle.index, handle.generation)) {
            Some(body) => Ok(body),
            None => Err(WorldError::InvalidHandle),
        }
    }

    /// The position of the body that `handle` names, as `read` reports it.
    ///
    /// Fails with `InvalidHandle`, without calling `read`, exactly when the
    /// world holds no body under that handle.
    pub fn get_position<P, F: Fn(&RigidBody) -> P>(&self, handle: BodyHandle, read: F) -> (found:
        Result<P, WorldError>)
        requires
            self.has_body(handle) ==> read.requires((&self.body_at(handle),)),
        ensures
            found is Ok <==> self.has_body(handle),
            found is Ok ==> read.ensures((&self.body_at(handle),), found->Ok_0),
            found is Err ==> found->Err_0 == WorldError::InvalidHandle,
    {
        match lookup_body(&self.bodies, (handle.index, handle.generation)) {
            Some(body) => Ok(read(body)),
            None => Err(WorldError::InvalidHandle),
        }
    }

    /// Inserts an immovable collider that is attached to no body.
    ///
    /// Always succeeds. The wall gets a handle no collider had and has no
    /// parent body; bodies and the other colliders stay as they were.
    pub fn add_static_wall(&mut self, wall: Collider) -> (handle: WallHandle)
        ensures
            !old(self).shapes().dom().contains(handle.id()),
            final(self).shapes() == old(self).shapes().insert(handle.id(), None::<(u32, u32)>),
            shapes_kept(*old(self), *final(self)),
            final(self).bodies == old(self).bodies,
            final(self).capacity == old(self).capacity,
    {
        let id = insert_collider(&mut self.colliders, wall);
        WallHandle { index: id.0, generation: id.1 }
    }

    /// Inserts the three walls that bound the sandbox, in this order: the
    /// floor, the left wall, the right wall.
    ///
    /// Always succeeds. The three get distinct handles that no collider had,
    /// and none has a parent body; bodies and the other colliders stay as
    /// they were.
    pub fn add_boundary_walls(&mut self, floor: Collider, left: Collider, right: Collider) -> (handles:
        (WallHandle, WallHandle, WallHandle))
        ensures
            handles.0.id() != handles.1.id(),
            handles.0.id() != handles.2.id(),
            handles.1.id() != handles.2.id(),
            !old(self).shapes().dom().contains(handles.0.id()),
            !old(self).shapes().dom().contains(handles.1.id()),
            !old(self).shapes().dom().contains(handles.2.id()),
            final(self).shapes() == old(self).shapes().insert(
                handles.0.id(),
                None::<(u32, u32)>,
            ).insert(handles.1.id(), None::<(u32, u32)>).insert(handles.2.id(), None::<(u32, u32)>),
            shapes_kept(*old(self), *final(self)),
            final(self).bodies == old(self).bodies,
            final(self).capacity == old(self).capacity,
    {
        let floor_handle = self.add_static_wall(floor);
        let left_handle = self.add_static_wall(left);
        let right_handle = self.add_static_wall(right);
        (floor_handle, left_handle, right_handle)
    }

    /// Inserts `body` and attaches `shape` to it.
    ///
    /// Fails with `WorldFull`, leaving the world untouched, exactly when the
    /// world already holds `capacity` bodies. Otherwise the body gets a
    /// handle no body had, every earlier handle stays valid, and exactly one
    /// collider is added, with the new body as its parent.
    pub fn add_dynamic_ball(&mut self, body: RigidBody, shape: Collider) -> (added: Result<
        BodyHandle,
        WorldError,
    >)
        ensures
            old(self).body_ids().finite(),
            old(self).body_ids().len() >= old(self).capacity ==> {
                &&& added == Err::<BodyHandle, WorldError>(WorldError::WorldFull)
                &&& *final(self) == *old(self)
            },
            old(self).body_ids().len() < old(self).capacity ==> {
                &&& added is Ok
                &&& ball_added(*old(self), *final(self), added->Ok_0)
            },
    {
        if body_count(&self.bodies) >= self.capacity {
            return Err(WorldError::WorldFull);
        }
        let ghost before = *self;
        let id = insert_body(&mut self.bodies, body);
        let ghost between = *self;
        let shape_id = insert_attached_collider(&mut self.colliders, shape, id, &mut self.bodies);
        let handle = BodyHandle { index: id.0, generation: id.1 };
        proof {
            assert(self.shapes() == before.shapes().insert(shape_id, Some(id)));
            assert forall|earlier: BodyHandle| before.has_body(earlier) implies self.has_body(
                earlier,
            ) && #[trigger] self.body_at(earlier) == before.body_at(earlier) by {
                assert(earlier.id() != id);
                assert(between.body_at(earlier) == before.body_at(earlier));
            }
            assert(shapes_kept(before, *self));
            assert(bodies_kept(before, *self));
            assert(ball_added(before, *self, handle));
        }
        Ok(handle)
    }
}

} // verus!
