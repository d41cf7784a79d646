use vstd::prelude::*;

verus! {

/// Whether a failure left anything behind that is visible to the operating system.
#[derive(Debug, Clone, Copy, PartialEq, Eq, Structural)]
pub enum ErrorKind {
    /// Nothing was created before the failure.
    Clean,
    /// A resource had already been created; best-effort cleanup was attempted.
    Dirty,
}

/// What went wrong.
#[derive(Debug, Clone, Copy, PartialEq, Eq, Structural)]
pub enum Reason {
    /// Every candidate key already named a segment.
    KeyCollision,
    /// The segment could not be created for a reason other than a collision.
    CreateFailed,
    /// No segment exists under the key.
    LookupFailed,
    /// The segment could not be mapped into this process.
    MapFailed,
    /// The lock could not be created, attached, acquired or released.
    LockFailed,
    /// The local mapping could not be detached.
    DetachFailed,
    /// The segment could not be marked for removal.
    RemoveFailed,
}

/// A failure of a segment operation, classified as clean or dirty.
#[derive(Debug, Clone, Copy, PartialEq, Eq, Structural)]
pub struct CortexError {
    pub kind: ErrorKind,
    pub reason: Reason,
}

pub type CortexResult<T> = Result<T, CortexError>;

impl CortexError {
    pub fn new_clean(reason: Reason) -> (r: CortexError)
        ensures
            r == (CortexError { kind: ErrorKind::Clean, reason }),
    {
        CortexError { kind: ErrorKind::Clean, reason }
    }

    pub fn new_dirty(reason: Reason) -> (r: CortexError)
        ensures
            r == (CortexError { kind: ErrorKind::Dirty, reason }),
    {
        CortexError { kind: ErrorKind::Dirty, reason }
    }

    pub fn is_clean(&self) -> (r: bool)
        ensures
            r == (self.kind == ErrorKind::Clean),
    {
        match self.kind {
            ErrorKind::Clean => true,
            ErrorKind::Dirty => false,
        }
    }

    pub fn is_dirty(&self) -> (r: bool)
        ensures
            r == (self.kind == ErrorKind::Dirty),
    {
        !self.is_clean()
    }

    pub fn reason(&self) -> (r: Reason)
        ensures
            r == self.reason,
    {
        self.reason
    }

    /// Turns the status of an operating-system call, where `-1` means failure,
    /// into a result: a failure is dirty, with the given reason.
    pub fn status_result(status: i32, reason: Reason) -> (r: CortexResult<()>)
        ensures
            (status == -1) == r is Err,
            r matches Err(e) ==> e == (CortexError { kind: ErrorKind::Dirty, reason }),
    {
        if status == -1 {
            Err(CortexError::new_dirty(reason))
        } else {
            Ok(())
        }
    }

    /// A short description of the failure, for logs.
    pub fn message(&self) -> (r: &'static str)
        ensures
            r@.len() > 0,
    {
        let r = match self.reason {
            Reason::KeyCollision => "key already names a segment",
            Reason::CreateFailed => "failed to create shared memory segment",
            Reason::LookupFailed => "no shared memory segment under key",
            Reason::MapFailed => "failed to attach shared memory segment",
            Reason::LockFailed => "lock operation failed",
            Reason::DetachFailed => "failed to detach shared memory segment",
            Reason::RemoveFailed => "failed to mark shared memory segment for removal",
        };
        proof {
            reveal_strlit("key already names a segment");
            reveal_strlit("failed to create shared memory segment");
            reveal_strlit("no shared memory segment under key");
            reveal_strlit("failed to attach shared memory segment");
            reveal_strlit("lock operation failed");
            reveal_strlit("failed to detach shared memory segment");
            reveal_strlit("failed to mark shared memory segment for removal");
        }
        r
    }
}

} // verus!
