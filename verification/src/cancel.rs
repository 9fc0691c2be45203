//! The cancellation flag and the one operation that writes it.

use vstd::prelude::*;

verus! {

/// The flag by which a caller asks an exchange in flight to stop.
#[derive(Debug)]
pub struct CancelFlag {
    requested: bool,
}

impl CancelFlag {
    /// Whether cancellation is requested.
    pub closed spec fn is_set(&self) -> bool {
        self.requested
    }

    /// A flag that is not set.
    pub fn new() -> (flag: CancelFlag)
        ensures
            !flag.is_set(),
    {
        CancelFlag { requested: false }
    }

    /// Writes `flag` and echoes the value written.
    pub fn request_cancel(&mut self, flag: bool) -> (written: bool)
        ensures
            written == flag,
            final(self).is_set() == flag,
    {
        self.requested = flag;
        flag
    }

    /// Reads the flag and leaves it unset: a cancellation that has been seen
    /// is not seen again.
    pub fn take(&mut self) -> (seen: bool)
        ensures
            seen == old(self).is_set(),
            !final(self).is_set(),
    {
        let seen = self.requested;
        self.requested = false;
        seen
    }

    /// Reads the flag.
    pub fn is_requested(&self) -> (set: bool)
        ensures
            set == self.is_set(),
    {
        self.requested
    }
}

} // verus!
