//! Assets kept in a store and referred to by handle.

use std::marker::PhantomData;
use vstd::prelude::*;

verus! {

/// What identifies an asset within its store.
pub type HandleId = usize;

/// Refers to an asset of type `T` in an [`AssetStorage`].
#[derive(Debug)]
pub struct Handle<T> {
    pub id: HandleId,
    pub marker: PhantomData<T>,
}

impl<T> Handle<T> {
    pub fn new(id: HandleId) -> (handle: Self)
        ensures
            handle.id == id,
    {
        Handle { id, marker: PhantomData }
    }
}

impl<T> Clone for Handle<T> {
    fn clone(&self) -> (copy: Self)
        ensures
            copy.id == self.id,
    {
        Handle { id: self.id, marker: PhantomData }
    }
}

impl<T> Copy for Handle<T> {

}

/// Holds assets of type `T`; each gets the next free id when it is added.
///
/// As a sequence, the store is its assets in the order they were added, so an
/// asset's id is its index.
#[derive(Debug)]
pub struct AssetStorage<T> {
    assets: Vec<T>,
}

impl<T> View for AssetStorage<T> {
    type V = Seq<T>;

    closed spec fn view(&self) -> Seq<T> {
        self.assets@
    }
}

impl<T> AssetStorage<T> {
    pub fn new() -> (storage: Self)
        ensures
            storage@ == Seq::<T>::empty(),
    {
        AssetStorage { assets: Vec::new() }
    }

    /// Stores `asset` and returns the handle under which it can be found.
    pub fn add(&mut self, asset: T) -> (handle: Handle<T>)
        ensures
            final(self)@ == old(self)@.push(asset),
            handle.id == old(self)@.len(),
    {
        let id: usize = self.assets.len();
        self.assets.push(asset);
        Handle::new(id)
    }

    /// The asset that `handle` refers to, if the store holds it.
    pub fn get(&self, handle: Handle<T>) -> (asset: Option<&T>)
        ensures
            (match asset {
                Some(asset) => handle.id < self@.len() && *asset == self@[handle.id as int],
                None => handle.id >= self@.len(),
            }),
    {
        if handle.id < self.assets.len() {
            Some(&self.assets[handle.id])
        } else {
            None
        }
    }
}

} // verus!
