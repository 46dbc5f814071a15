use vstd::prelude::*;
use crate::bridge::UpdateError;

verus! {

/// The file-source adapter's descriptor slot: at most one open image file.
///
/// The operating-system calls that produce and release a descriptor happen
/// outside this crate; this type decides what those calls' plain integer
/// results mean and guarantees the slot's discipline — a descriptor is
/// recorded only when the open succeeded, and releasing is idempotent.
pub struct FileSource {
    pub fd: Option<i32>,
}

impl FileSource {
    /// A recorded descriptor is always a valid (non-negative) one.
    pub open spec fn wf(self) -> bool {
        self.fd matches Some(fd) ==> fd >= 0
    }

    /// An empty slot: no source is open.
    pub fn new() -> (s: FileSource)
        ensures
            s.fd is None,
            s.wf(),
    {
        FileSource { fd: None }
    }

    /// Record the result of opening the image path: a non-negative `fd` is
    /// kept as the open source, a negative one reports the open failure and
    /// leaves the slot empty.
    pub fn record_open(&mut self, fd: i32) -> (r: Result<(), UpdateError>)
        requires
            old(self).fd is None,
        ensures
            final(self).wf(),
            fd >= 0 ==> r is Ok && final(self).fd == Some(fd),
            fd < 0 ==> r == Result::<(), UpdateError>::Err(UpdateError::SourceOpen)
                && final(self).fd is None,
    {
        if fd >= 0 {
            self.fd = Some(fd);
            Ok(())
        } else {
            Err(UpdateError::SourceOpen)
        }
    }

    /// Empty the slot, handing back the descriptor to release, if any.
    ///
    /// Closing is idempotent and never fails: on an already-closed source
    /// nothing is handed back and the slot is unchanged.
    pub fn close(&mut self) -> (released: Option<i32>)
        ensures
            final(self).fd is None,
            final(self).wf(),
            released == old(self).fd,
            old(self).fd is None ==> *final(self) == *old(self),
    {
        let released = self.fd;
        self.fd = None;
        released
    }
}

} // verus!
