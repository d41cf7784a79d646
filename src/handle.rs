use vstd::prelude::*;

use core::marker::PhantomData;

use crate::error::{CortexError, CortexResult, ErrorKind};
use crate::sync::CortexSync;

verus! {

/// What a handle records of the segment it is attached to.
pub struct CortexView {
    pub key: i32,
    pub id: i32,
    pub size: usize,
    pub is_owner: bool,
}

/// What must happen when a handle's lifetime ends.
#[derive(Debug, Clone, Copy, PartialEq, Eq, Structural)]
pub struct Teardown {
    /// Detach the local mapping.
    pub detach: bool,
    /// Ask the operating system to remove the segment.
    pub remove_segment: bool,
}

/// The teardown that a handle with this view performs: it always detaches,
/// and removes the segment exactly when it is the owner.
pub open spec fn teardown_of(v: CortexView) -> Teardown {
    Teardown { detach: true, remove_segment: v.is_owner }
}

/// A handle on a shared memory segment that holds one value of type `T`,
/// guarded by a lock of type `L` named by the same key.
///
/// The mapping itself belongs to whoever performs the memory transfer; the
/// handle carries the segment's identity, its ownership, and the lock through
/// which every access goes.
pub struct Cortex<T, L> {
    key: i32,
    id: i32,
    size: usize,
    is_owner: bool,
    lock: L,
    value: PhantomData<T>,
}

impl<T, L> View for Cortex<T, L> {
    type V = CortexView;

    closed spec fn view(&self) -> CortexView {
        CortexView { key: self.key, id: self.id, size: self.size, is_owner: self.is_owner }
    }
}

impl<T, L: CortexSync> Cortex<T, L> {
    /// Completes the creation of a fresh segment `id` under `key`: creates its
    /// lock and returns the owning handle. A failure here is dirty, since the
    /// segment already exists and must be cleaned up by the caller; it keeps
    /// the reason the lock gave.
    pub fn new(key: i32, id: i32, size: usize, lock_settings: Option<&L::Settings>) -> (r:
        CortexResult<Self>)
        ensures
            r matches Ok(c) ==> c@ == (CortexView { key, id, size, is_owner: true }),
            r matches Err(e) ==> e.kind == ErrorKind::Dirty,
    {
        match L::new(key, lock_settings) {
            Ok(lock) => Ok(Cortex { key, id, size, is_owner: true, lock, value: PhantomData }),
            Err(e) => Err(CortexError::new_dirty(e.reason)),
        }
    }

    /// Joins the segment that already exists under `key`: attaches to its
    /// lock first, then `locate` looks the segment up, maps it, and gives its
    /// identifier. The handle does not own the segment. Errors of the lock and
    /// of `locate` are passed on as they are.
    pub fn attach<F: FnOnce(i32) -> CortexResult<i32>>(key: i32, size: usize, locate: F) -> (r:
        CortexResult<Self>)
        requires
            locate.requires((key,)),
        ensures
            r matches Ok(c) ==> {
                &&& c@.key == key
                &&& c@.size == size
                &&& !c@.is_owner
                &&& locate.ensures((key,), Ok(c@.id))
            },
    {
        let lock = match L::attach(key) {
            Ok(lock) => lock,
            Err(e) => return Err(e),
        };
        match locate(key) {
            Ok(id) => Ok(Cortex { key, id, size, is_owner: false, lock, value: PhantomData }),
            Err(e) => Err(e),
        }
    }

    /// Joins the segment that already exists under `key` as `attach` does,
    /// then claims its ownership, for recovery from an owner that is gone.
    pub fn takeover<F: FnOnce(i32) -> CortexResult<i32>>(key: i32, size: usize, locate: F) -> (r:
        CortexResult<Self>)
        requires
            locate.requires((key,)),
        ensures
            r matches Ok(c) ==> {
                &&& c@.key == key
                &&& c@.size == size
                &&& c@.is_owner
                &&& locate.ensures((key,), Ok(c@.id))
            },
    {
        match Self::attach(key, size, locate) {
            Ok(c) => {
                let mut c = c;
                c.force_ownership();
                Ok(c)
            },
            Err(e) => Err(e),
        }
    }

    pub fn key(&self) -> (r: i32)
        ensures
            r == self@.key,
    {
        self.key
    }

    pub fn id(&self) -> (r: i32)
        ensures
            r == self@.id,
    {
        self.id
    }

    pub fn size(&self) -> (r: usize)
        ensures
            r == self@.size,
    {
        self.size
    }

    pub fn is_owner(&self) -> (r: bool)
        ensures
            r == self@.is_owner,
    {
        self.is_owner
    }

    /// Makes this handle the owner of its segment and claims the lock.
    pub fn force_ownership(&mut self)
        ensures
            final(self)@ == (CortexView { is_owner: true, ..old(self)@ }),
    {
        self.is_owner = true;
        self.lock.force_ownership();
    }

    /// Reads the value under the lock: `load` copies it out of the mapping
    /// while the exclusive section is held. Errors of the lock are passed on.
    pub fn read<F: FnOnce() -> T>(&self, load: F) -> (r: CortexResult<T>)
        requires
            load.requires(()),
        ensures
            r matches Ok(v) ==> load.ensures((), v),
    {
        match self.lock.read_lock() {
            Ok(()) => {},
            Err(e) => return Err(e),
        }
        let v = load();
        match self.lock.release() {
            Ok(()) => Ok(v),
            Err(e) => Err(e),
        }
    }

    /// Writes `data` under the lock: `store` puts it into the mapping while
    /// the exclusive section is held. Errors of the lock are passed on.
    pub fn write<F: FnOnce(T)>(&self, data: T, store: F) -> (r: CortexResult<()>)
        requires
            store.requires((data,)),
        ensures
            r is Ok ==> store.ensures((data,), ()),
    {
        match self.lock.write_lock() {
            Ok(()) => {},
            Err(e) => return Err(e),
        }
        store(data);
        match self.lock.release() {
            Ok(()) => Ok(()),
            Err(e) => Err(e),
        }
    }

    /// What must happen when this handle is dropped.
    pub fn teardown(&self) -> (r: Teardown)
        ensures
            r == teardown_of(self@),
    {
        Teardown { detach: true, remove_segment: self.is_owner }
    }
}

} // verus!
