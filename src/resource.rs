use vstd::prelude::*;

verus! {

/// A driver object (device, queue, command pool) known by its raw handle,
/// together with the token that keeps it alive while it is held.
pub struct Resource<K> {
    pub handle: u64,
    pub keep: K,
}

impl<K> Resource<K> {
    pub fn new(handle: u64, keep: K) -> (r: Resource<K>)
        ensures
            r.handle == handle,
            r.keep == keep,
    {
        Resource { handle, keep }
    }
}

impl<K: Clone> Clone for Resource<K> {
    /// The copy refers to the same object and holds a copy of the token.
    fn clone(&self) -> (r: Self)
        ensures
            r.handle == self.handle,
            cloned::<K>(self.keep, r.keep),
    {
        Resource { handle: self.handle, keep: self.keep.clone() }
    }
}

/// A GPU buffer known by its raw handle and its size in bytes, together with
/// the token that keeps it alive while it is held.
pub struct Buffer<K> {
    pub handle: u64,
    pub size: u64,
    pub keep: K,
}

impl<K> Buffer<K> {
    pub fn new(handle: u64, size: u64, keep: K) -> (r: Buffer<K>)
        ensures
            r.handle == handle,
            r.size == size,
            r.keep == keep,
    {
        Buffer { handle, size, keep }
    }
}

impl<K: Clone> Clone for Buffer<K> {
    /// The copy refers to the same buffer and holds a copy of the token.
    fn clone(&self) -> (r: Self)
        ensures
            r.handle == self.handle,
            r.size == self.size,
            cloned::<K>(self.keep, r.keep),
    {
        Buffer { handle: self.handle, size: self.size, keep: self.keep.clone() }
    }
}

} // verus!
