//! Single-item hand-off container shared between the main context and the
//! tick handler.

use vstd::prelude::*;

verus! {

/// Holds zero or one value of a peripheral handle or a job.
///
/// The caller is responsible for entering a critical section before touching
/// a slot that the tick handler can reach; every operation here runs to
/// completion on the exclusive borrow it is given.
#[derive(Debug)]
pub struct SharedSlot<T> {
    value: Option<T>,
}

impl<T> View for SharedSlot<T> {
    type V = Option<T>;

    closed spec fn view(&self) -> Option<T> {
        self.value
    }
}

impl<T> SharedSlot<T> {
    /// An empty slot, as every slot is at startup.
    pub fn new() -> (slot: Self)
        ensures
            slot@ is None,
    {
        SharedSlot { value: None }
    }

    /// True when nothing has been handed over yet, or the content was taken.
    pub fn is_empty(&self) -> (empty: bool)
        ensures
            empty == (self@ is None),
    {
        self.value.is_none()
    }

    /// Stores `value` (or empties the slot with `None`) and hands back what
    /// the slot held before.
    pub fn replace(&mut self, value: Option<T>) -> (previous: Option<T>)
        ensures
            final(self)@ == value,
            previous == old(self)@,
    {
        let previous = self.value.take();
        self.value = value;
        previous
    }

    /// Removes the content, leaving the slot empty.
    pub fn take(&mut self) -> (content: Option<T>)
        ensures
            final(self)@ is None,
            content == old(self)@,
    {
        self.value.take()
    }

    /// Lends the content out for changes, if there is any.
    pub fn get_mut(&mut self) -> (content: Option<&mut T>)
        ensures
            match content {
                Some(inner) => old(self)@ is Some && *inner == old(self)@->0 && final(self)@
                    == Some(*final(inner)),
                None => old(self)@ is None && final(self)@ is None,
            },
    {
        self.value.as_mut()
    }

    /// Applies `f` to the content, if there is one, and to `world`, a state
    /// that the caller threads through the operations of one critical
    /// section; on an empty slot nothing runs, `world` stays as it is and
    /// `None` comes back.
    pub fn with_mut_in<W, R, F: FnOnce(&mut T, &mut W) -> R>(
        &mut self,
        world: &mut W,
        f: F,
    ) -> (result: Option<R>)
        requires
            applicable(f, old(self)@, *old(world)),
        ensures
            old(self)@ is None ==> result is None && final(self)@ is None && *final(world) == *old(
                world,
            ),
            old(self)@ is Some ==> result is Some && final(self)@ is Some && exists|
                t: &mut T,
                w: &mut W,
            |
                *t == old(self)@->0 && *final(t) == final(self)@->0 && *w == *old(world)
                    && *final(w) == *final(world) && f.ensures((t, w), result->0),
    {
        match &mut self.value {
            Some(inner) => {
                let outcome = f(inner, world);
                let result = Some(outcome);
                assert(result->0 == outcome);
                result
            },
            None => None,
        }
    }

    /// Applies `f` to the content if there is one; on an empty slot nothing
    /// runs and `None` comes back.
    pub fn with_mut<R, F: FnOnce(&mut T) -> R>(&mut self, f: F) -> (result: Option<R>)
        requires
            old(self)@ is Some ==> forall|t: &mut T| *t == old(self)@->0 ==> f.requires((t,)),
        ensures
            old(self)@ is None ==> result is None && final(self)@ is None,
            old(self)@ is Some ==> result is Some && final(self)@ is Some && exists|t: &mut T|
                *t == old(self)@->0 && *final(t) == final(self)@->0 && f.ensures(
                    (t,),
                    result->0,
                ),
    {
        match &mut self.value {
            Some(inner) => Some(f(inner)),
            None => None,
        }
    }
}

/// Whether `f` can be called on the content of a slot and on the world
/// `world`: on an empty slot nothing is asked of it.
pub open spec fn applicable<T, W, R, F: FnOnce(&mut T, &mut W) -> R>(
    f: F,
    content: Option<T>,
    world: W,
) -> bool {
    content is Some ==> forall|t: &mut T, w: &mut W|
        *t == content->0 && *w == world ==> f.requires((t, w))
}

} // verus!
