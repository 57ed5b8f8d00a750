use vstd::prelude::*;
use crate::time::{clock_now, Timestamp};
use crate::value_type::TypedValue;

verus! {

/// The key of an entity `E` whose identifier holds a `V`.
pub type Key<E, V> = TypedValue<V, E>;

/// A domain object identified by a key, with the time it was created.
pub trait Entity {
    /// The type of the key that identifies entities.
    type Key;

    /// Borrows the key of the entity.
    fn id(&self) -> &Self::Key;

    /// Borrows the time at which the entity was created.
    fn created_at(&self) -> &Timestamp;
}

/// An entity that also tracks when it was last modified.
pub trait MutableEntity: Entity {
    /// Borrows the time at which the entity was last updated.
    fn updated_at(&self) -> &Timestamp;

    /// Sets the modification time to the current time and borrows it.
    fn touch(&mut self) -> &Timestamp;
}

/// Records `now` as the modification time held in `field`, and returns it.
pub fn stamp(field: &mut Timestamp, now: Timestamp) -> (r: Timestamp)
    ensures
        *final(field) == now,
        r == now,
        now != *old(field) ==> *final(field) != *old(field),
{
    *field = now;
    now
}

/// Records the current time as the modification time held in `field`, and
/// returns it. The body of a generated `MutableEntity::touch`.
pub fn touch_field(field: &mut Timestamp) -> (r: Timestamp)
    ensures
        *final(field) == r,
        r.nanos < 1_000_000_000,
{
    let now = clock_now();
    stamp(field, now)
}

} // verus!
