//! The rigid-body engine's sets, as far as the world reads and fills them.
//!
//! Nothing in this module is proved. Each item states what the engine's
//! source shows of one of its functions; the rest of the crate is verified
//! against these statements.

use rapier2d::dynamics::{RigidBody, RigidBodyHandle, RigidBodySet};
use rapier2d::geometry::{Collider, ColliderSet};
use vstd::prelude::*;

verus! {

/// `rapier2d::dynamics::RigidBody`: one body with its position, velocity and
/// mass. Opaque here.
#[verifier::external_type_specification]
#[verifier::external_body]
pub struct ExRigidBody(rapier2d::dynamics::RigidBody);

/// `rapier2d::geometry::Collider`: one shape with its material. Opaque here.
#[verifier::external_type_specification]
#[verifier::external_body]
pub struct ExCollider(rapier2d::geometry::Collider);

/// `rapier2d::dynamics::RigidBodySet`: the engine's arena of bodies.
#[verifier::external_type_specification]
#[verifier::external_body]
pub struct ExRigidBodySet(rapier2d::dynamics::RigidBodySet);

/// `rapier2d::geometry::ColliderSet`: the engine's arena of colliders.
#[verifier::external_type_specification]
#[verifier::external_body]
pub struct ExColliderSet(rapier2d::geometry::ColliderSet);

/// What a body set holds: each live handle, as its (index, generation) pair,
/// with the body stored under it.
pub uninterp spec fn bodies_in(set: RigidBodySet) -> Map<(u32, u32), RigidBody>;

/// What a collider set holds: each live collider handle, as its (index,
/// generation) pair, with the handle of the body the collider is attached
/// to, or `None` for a collider attached to no body.
pub uninterp spec fn colliders_in(set: ColliderSet) -> Map<(u32, u32), Option<(u32, u32)>>;

/// What a collider set stores: each live collider handle, as its (index,
/// generation) pair, with the collider stored under it (shape, position and
/// material). Its handles are those of `colliders_in`.
pub uninterp spec fn stored_colliders(set: ColliderSet) -> Map<(u32, u32), Collider>;

/// The set of handles is finite and has exactly `n` members.
pub open spec fn has_size(ids: Set<(u32, u32)>, n: nat) -> bool {
    ids.finite() && ids.len() == n
}

/// `RigidBodySet::new`: a set that holds no body.
#[verifier::external_body]
pub(crate) fn new_body_set() -> (set: RigidBodySet)
    ensures
        bodies_in(set).dom() == Set::<(u32, u32)>::empty(),
{
    RigidBodySet::new()
}

/// `ColliderSet::new`: a set that holds no collider.
#[verifier::external_body]
pub(crate) fn new_collider_set() -> (set: ColliderSet)
    ensures
        colliders_in(set).dom() == Set::<(u32, u32)>::empty(),
{
    ColliderSet::new()
}

/// `RigidBodySet::len`: the number of live handles, which is finite.
#[verifier::external_body]
pub(crate) fn body_count(set: &RigidBodySet) -> (n: usize)
    ensures
        has_size(bodies_in(*set).dom(), n as nat),
{
    set.len()
}

/// `ColliderSet::len`: the number of live collider handles, which is finite.
#[verifier::external_body]
pub(crate) fn collider_count(set: &ColliderSet) -> (n: usize)
    ensures
        has_size(colliders_in(*set).dom(), n as nat),
{
    set.len()
}

/// `RigidBodySet::get`: the body stored under a handle, or `None` where the
/// set holds no such handle (never issued, or of another generation).
#[verifier::external_body]
pub(crate) fn lookup_body(set: &RigidBodySet, id: (u32, u32)) -> (found: Option<&RigidBody>)
    ensures
        found == if bodies_in(*set).dom().contains(id) {
            Some(&bodies_in(*set)[id])
        } else {
            None
        },
{
    set.get(RigidBodyHandle::from_raw_parts(id.0, id.1))
}

/// `RigidBodySet::insert`: stores the body in a free slot of the arena and
/// returns the slot's handle. The handle was not live before; every handle
/// that was live stays live and names the same body, untouched. The stored
/// body is the given one with its engine-internal links reset, so nothing is
/// said of its value.
#[verifier::external_body]
pub(crate) fn insert_body(set: &mut RigidBodySet, body: RigidBody) -> (id: (u32, u32))
    ensures
        !bodies_in(*old(set)).dom().contains(id),
        bodies_in(*final(set)).dom() == bodies_in(*old(set)).dom().insert(id),
        forall|h: (u32, u32)|
            bodies_in(*old(set)).dom().contains(h) ==> #[trigger] bodies_in(*final(set))[h]
                == bodies_in(*old(set))[h],
{
    set.insert(body).into_raw_parts()
}

/// `ColliderSet::insert`: detaches the collider from any parent, stores it
/// in a free slot of the arena and returns the slot's handle. The handle was
/// not live before; the colliders stored before keep their handles and
/// parents and are themselves untouched.
#[verifier::external_body]
pub(crate) fn insert_collider(set: &mut ColliderSet, collider: Collider) -> (id: (u32, u32))
    ensures
        !colliders_in(*old(set)).dom().contains(id),
        colliders_in(*final(set)) == colliders_in(*old(set)).insert(id, None::<(u32, u32)>),
        forall|c: (u32, u32)|
            colliders_in(*old(set)).dom().contains(c) ==> #[trigger] stored_colliders(
                *final(set),
            )[c] == stored_colliders(*old(set))[c],
{
    set.insert(collider).into_raw_parts()
}

/// `ColliderSet::insert_with_parent`: stores a collider with the body under
/// `parent` as its parent and returns its handle, which was not live before;
/// the colliders stored before keep their handles and parents and are
/// themselves untouched. The engine panics where `parent` is not live, hence
/// the precondition. The parent body is updated in place (mass, collider
/// list), so nothing is said of its value; no body handle is added or
/// removed, and every other body is untouched.
#[verifier::external_body]
pub(crate) fn insert_attached_collider(
    set: &mut ColliderSet,
    collider: Collider,
    parent: (u32, u32),
    bodies: &mut RigidBodySet,
) -> (id: (u32, u32))
    requires
        bodies_in(*old(bodies)).dom().contains(parent),
    ensures
        !colliders_in(*old(set)).dom().contains(id),
        colliders_in(*final(set)) == colliders_in(*old(set)).insert(id, Some(parent)),
        forall|c: (u32, u32)|
            colliders_in(*old(set)).dom().contains(c) ==> #[trigger] stored_colliders(
                *final(set),
            )[c] == stored_colliders(*old(set))[c],
        bodies_in(*final(bodies)).dom() == bodies_in(*old(bodies)).dom(),
        forall|h: (u32, u32)|
            bodies_in(*old(bodies)).dom().contains(h) && h != parent ==> #[trigger] bodies_in(
                *final(bodies),
            )[h] == bodies_in(*old(bodies))[h],
{
    let parent_handle = RigidBodyHandle::from_raw_parts(parent.0, parent.1);
    set.insert_with_parent(collider, parent_handle, bodies).into_raw_parts()
}

} // verus!
