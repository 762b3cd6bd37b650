use vstd::prelude::*;

verus! {

/// The start of the server, held until it is wanted: a task that is run
/// once, on the thread that is to drive the event loop.
pub struct MioStart<F> {
    fn_start: F,
}

impl<F: FnOnce()> MioStart<F> {
    /// The task that `start` runs.
    pub closed spec fn task(self) -> F {
        self.fn_start
    }

    /// Holds `fn_start` until `start` is called.
    pub fn new(fn_start: F) -> (start: MioStart<F>)
        ensures
            start.task() == fn_start,
    {
        MioStart { fn_start }
    }

    /// Runs the task, and returns when it does.
    pub fn start(self)
        requires
            self.task().requires(()),
        ensures
            self.task().ensures((), ()),
    {
        (self.fn_start)()
    }
}

} // verus!
