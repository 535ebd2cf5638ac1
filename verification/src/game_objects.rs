//! Game objects: a transform and any number of components.

use vstd::prelude::*;
use crate::components::{Component, Transform};

verus! {

/// An object of a scene.
pub struct GameObject<T> {
    pub transform: Transform<T>,
    pub components: Vec<Component<T>>,
}

impl<T> GameObject<T> {
    /// An object without components.
    pub fn new(transform: Transform<T>) -> (object: GameObject<T>)
        ensures
            object.transform == transform,
            object.components@ == Seq::<Component<T>>::empty(),
    {
        GameObject { transform, components: Vec::new() }
    }

    /// Adds a component after those the object has.
    pub fn add_component(&mut self, component: Component<T>)
        ensures
            final(self).transform == old(self).transform,
            final(self).components@ == old(self).components@.push(component),
    {
        self.components.push(component);
    }
}

} // verus!
