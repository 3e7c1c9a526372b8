//! Ownership of the process/thread handle pair produced by process
//! creation.  The guard is constructed empty before the creation call runs,
//! adopts whatever the call populated, and on release hands back every
//! handle it holds exactly once — whichever path (success, a later failure,
//! or an early failure before anything was adopted) triggers the release.

use vstd::prelude::*;

verus! {

/// Owns the (possibly still-unset) process/thread handle pair.  A raw
/// handle is carried as a plain machine word; the null handle is 0 and is
/// recorded as absent.  Each handle held is handed out exactly once, on
/// release; nothing remains held afterwards.
pub struct HandleGuard {
    process: Option<usize>,
    thread: Option<usize>,
}

impl HandleGuard {
    /// The process handle held, if any.
    pub closed spec fn process_handle(self) -> Option<usize> {
        self.process
    }

    /// The primary-thread handle held, if any.
    pub closed spec fn thread_handle(self) -> Option<usize> {
        self.thread
    }

    /// How many handles the guard currently holds.
    pub open spec fn open_count(self) -> nat {
        (if self.process_handle() is Some { 1nat } else { 0nat })
            + (if self.thread_handle() is Some { 1nat } else { 0nat })
    }

    /// The guard holds nothing.
    pub open spec fn is_empty(self) -> bool {
        self.open_count() == 0
    }

    /// The handles held, process first: exactly what a release hands back.
    pub open spec fn held_handles(self) -> Seq<usize> {
        (match self.process_handle() {
            Some(h) => seq![h],
            None => Seq::empty(),
        }) + (match self.thread_handle() {
            Some(h) => seq![h],
            None => Seq::empty(),
        })
    }

    /// A guard never holds the null handle.
    pub open spec fn wf(self) -> bool {
        &&& (self.process_handle() matches Some(h) ==> h != 0)
        &&& (self.thread_handle() matches Some(h) ==> h != 0)
    }

    /// An empty guard, constructed before the creation call runs.
    pub fn new() -> (g: HandleGuard)
        ensures
            g.is_empty(),
            g.wf(),
    {
        HandleGuard { process: None, thread: None }
    }

    /// Adopts the handle pair a successful creation call populated.  A zero
    /// (null) field means that handle was never allocated and is recorded
    /// as absent rather than held.
    pub fn adopt(&mut self, process: usize, thread: usize)
        requires
            old(self).is_empty(),
        ensures
            final(self).process_handle() == (if process != 0 {
                Some(process)
            } else {
                None::<usize>
            }),
            final(self).thread_handle() == (if thread != 0 {
                Some(thread)
            } else {
                None::<usize>
            }),
            final(self).wf(),
    {
        self.process = if process != 0 {
            Some(process)
        } else {
            None
        };
        self.thread = if thread != 0 {
            Some(thread)
        } else {
            None
        };
    }

    /// Hands back every handle held, each exactly once, for the platform
    /// driver to close; afterwards the guard holds nothing, so a second
    /// release hands back nothing.
    pub fn release_all(&mut self) -> (hs: Vec<usize>)
        ensures
            hs@ == old(self).held_handles(),
            final(self).is_empty(),
            final(self).wf(),
    {
        let mut hs: Vec<usize> = Vec::new();
        match self.process {
            Some(h) => hs.push(h),
            None => (),
        }
        match self.thread {
            Some(h) => hs.push(h),
            None => (),
        }
        self.process = None;
        self.thread = None;
        assert(hs@ =~= old(self).held_handles());
        hs
    }
}

} // verus!
