//! The render list: what the presentation layer draws, refreshed from the
//! world after each step.

use crate::world::{ball_added, BodyHandle, World, WorldError};
use rapier2d::dynamics::RigidBody;
use rapier2d::geometry::Collider;
use vstd::prelude::*;

verus! {

/// What is drawn for one ball: its body's handle, its radius, and the
/// position last read from the world.
///
/// `R` and `P` are the caller's radius and position types; this crate stores
/// and hands them back without computing on them.
pub struct RenderEntity<R, P> {
    pub handle: BodyHandle,
    pub radius: R,
    pub position: P,
}

/// The list of render entities, in the order their balls were spawned.
///
/// Entities are added by `spawn` and refreshed by `refresh`; none is ever
/// removed, and none ever changes its handle or radius.
pub struct RenderSync<R, P> {
    entities: Vec<RenderEntity<R, P>>,
}

impl<R, P> View for RenderSync<R, P> {
    type V = Seq<RenderEntity<R, P>>;

    closed spec fn view(&self) -> Seq<RenderEntity<R, P>> {
        self.entities@
    }
}

/// Every entity of `entities` names a body of `world`.
pub open spec fn all_tracked<R, P>(entities: Seq<RenderEntity<R, P>>, world: World) -> bool {
    forall|i: int| 0 <= i < entities.len() ==> world.has_body(#[trigger] entities[i].handle)
}

/// No two entities of `entities` name the same body.
pub open spec fn handles_distinct<R, P>(entities: Seq<RenderEntity<R, P>>) -> bool {
    forall|i: int, j: int|
        0 <= i < j < entities.len() ==> (#[trigger] entities[i]).handle != (
        #[trigger] entities[j]).handle
}

/// `after` is `before` with each position re-read from `world` through
/// `read`, and nothing else changed.
pub open spec fn refreshed_from<R, P, F: Fn(&RigidBody) -> P>(
    before: Seq<RenderEntity<R, P>>,
    after: Seq<RenderEntity<R, P>>,
    world: World,
    read: F,
) -> bool {
    &&& after.len() == before.len()
    &&& forall|i: int|
        0 <= i < before.len() ==> {
            &&& (#[trigger] after[i]).handle == before[i].handle
            &&& after[i].radius == before[i].radius
            &&& read.ensures((&world.body_at(before[i].handle),), after[i].position)
        }
}

impl<R, P> RenderSync<R, P> {
    /// Every entity names a body of `world`, and no two name the same one.
    pub open spec fn consistent_with(&self, world: World) -> bool {
        all_tracked(self@, world) && handles_distinct(self@)
    }

    /// An empty render list.
    pub fn new() -> (list: Self)
        ensures
            list@ == Seq::<RenderEntity<R, P>>::empty(),
    {
        RenderSync { entities: Vec::new() }
    }

    /// Number of entities.
    pub fn len(&self) -> (n: usize)
        ensures
            n == self@.len(),
    {
        self.entities.len()
    }

    /// The entities, oldest first, for the presentation layer to draw.
    pub fn entities(&self) -> (all: &Vec<RenderEntity<R, P>>)
        ensures
            all@ == self@,
    {
        &self.entities
    }

    /// What the presentation layer is to draw: `project` applied to every
    /// entity, oldest first. The caller's `project` maps an entity's cached
    /// position and radius to screen space; the list itself is not changed.
    pub fn draw_list<D, F: Fn(&RenderEntity<R, P>) -> D>(&self, project: F) -> (commands: Vec<D>)
        requires
            forall|i: int| 0 <= i < self@.len() ==> project.requires((&#[trigger] self@[i],)),
        ensures
            commands@.len() == self@.len(),
            forall|i: int|
                0 <= i < self@.len() ==> project.ensures((&self@[i],), #[trigger] commands@[i]),
    {
        let mut commands: Vec<D> = Vec::new();
        let mut k: usize = 0;
        while k < self.entities.len()
            invariant
                k <= self.entities.len(),
                commands@.len() == k,
                forall|i: int| 0 <= i < self@.len() ==> project.requires((&#[trigger] self@[i],)),
                forall|i: int| 0 <= i < k ==> project.ensures((&self@[i],), #[trigger] commands@[i]),
            decreases self.entities.len() - k,
        {
            assert(project.requires((&self@[k as int],)));
            let command = project(&self.entities[k]);
            commands.push(command);
            k += 1;
        }
        commands
    }

    /// Creates one ball: inserts `body` with `shape` into `world` and appends
    /// the matching render entity, which starts at `position`.
    ///
    /// Fails with `WorldFull` exactly when the world is at capacity; then
    /// neither the world nor the list changes. On success the new entity is
    /// last in the list and carries the handle the world issued. A list that
    /// was consistent with the world stays so.
    pub fn spawn(
        &mut self,
        world: &mut World,
        body: RigidBody,
        shape: Collider,
        radius: R,
        position: P,
    ) -> (spawned: Result<BodyHandle, WorldError>)
        ensures
            old(world).body_ids().finite(),
            old(world).body_ids().len() >= old(world).capacity ==> {
                &&& spawned == Err::<BodyHandle, WorldError>(WorldError::WorldFull)
                &&& *final(world) == *old(world)
                &&& final(self)@ == old(self)@
            },
            old(world).body_ids().len() < old(world).capacity ==> {
                &&& spawned is Ok
                &&& ball_added(*old(world), *final(world), spawned->Ok_0)
                &&& final(self)@ == old(self)@.push(
                    RenderEntity { handle: spawned->Ok_0, radius, position },
                )
            },
            old(self).consistent_with(*old(world)) ==> final(self).consistent_with(*final(world)),
    {
        match world.add_dynamic_ball(body, shape) {
            Ok(handle) => {
                self.entities.push(RenderEntity { handle, radius, position });
                Ok(handle)
            },
            Err(e) => Err(e),
        }
    }

    /// Re-reads every entity's position from `world`, calling `read` on the
    /// entity's body.
    ///
    /// Fails with `InvalidHandle`, changing nothing, exactly when some entity
    /// names no body of `world`. On success every position is what `read`
    /// returned for that entity's body; handles, radii and order are kept.
    pub fn refresh<F: Fn(&RigidBody) -> P>(&mut self, world: &World, read: F) -> (done: Result<
        (),
        WorldError,
    >)
        requires
            forall|handle: BodyHandle|
                world.has_body(handle) ==> read.requires((&#[trigger] world.body_at(handle),)),
        ensures
            done is Ok <==> all_tracked(old(self)@, *world),
            done is Err ==> {
                &&& done == Err::<(), WorldError>(WorldError::InvalidHandle)
                &&& final(self)@ == old(self)@
            },
            done is Ok ==> refreshed_from(old(self)@, final(self)@, *world, read),
    {
        let n = self.entities.len();
        let mut k: usize = 0;
        while k < n
            invariant
                n == self.entities.len(),
                self@ == old(self)@,
                k <= n,
                forall|i: int| 0 <= i < k ==> world.has_body(#[trigger] self@[i].handle),
            decreases n - k,
        {
            if !world.contains(self.entities[k].handle) {
                return Err(WorldError::InvalidHandle);
            }
            k += 1;
        }
        let mut j: usize = 0;
        while j < n
            invariant
                n == self.entities.len(),
                n == old(self)@.len(),
                j <= n,
                all_tracked(old(self)@, *world),
                forall|handle: BodyHandle|
                    world.has_body(handle) ==> read.requires((&#[trigger] world.body_at(handle),)),
                forall|i: int|
                    0 <= i < n ==> {
                        &&& (#[trigger] self@[i]).handle == old(self)@[i].handle
                        &&& self@[i].radius == old(self)@[i].radius
                    },
                forall|i: int|
                    j <= i < n ==> (#[trigger] self@[i]).position == old(self)@[i].position,
                forall|i: int|
                    0 <= i < j ==> read.ensures(
                        (&world.body_at(old(self)@[i].handle),),
                        (#[trigger] self@[i]).position,
                    ),
            decreases n - j,
        {
            let ghost before = self@;
            let handle = self.entities[j].handle;
            assert(world.has_body(old(self)@[j as int].handle));
            if let Ok(body) = world.body(handle) {
                let position = read(body);
                self.entities[j].position = position;
            }
            assert(self@ == before.update(
                j as int,
                RenderEntity {
                    handle: before[j as int].handle,
                    radius: before[j as int].radius,
                    position: self@[j as int].position,
                },
            ));
            j += 1;
        }
        Ok(())
    }
}

} // verus!
