use vstd::prelude::*;

use crate::events_loop::EventsLoop;
use crate::ids::{EventsLoopClosed, WindowId};

verus! {

/// A cheap handle that asks a loop to wake up. It refers to the loop's
/// state without owning it: the wakeup flag is handed to it for each request,
/// absent once the loop is gone.
#[derive(Debug, Clone, Copy, PartialEq, Eq, Structural)]
pub struct EventsLoopProxy {
    /// The invisible window of the loop that receives wakeup messages.
    pub wakeup_dummy_window: u64,
}

/// What a wakeup request does, given the loop's flag (absent once the loop
/// is gone) and whether its connection is still open: on a live loop it sets
/// the flag and names the window to send the wakeup message to; otherwise it
/// reports the loop closed and leaves everything as it was.
pub open spec fn wakeup_outcome(dummy: u64, flag: Option<bool>, display_open: bool) -> (
    Result<WindowId, EventsLoopClosed>,
    Option<bool>,
) {
    match flag {
        Some(_) => if display_open {
            (Ok(WindowId(dummy)), Some(true))
        } else {
            (Err(EventsLoopClosed), flag)
        },
        None => (Err(EventsLoopClosed), flag),
    }
}

impl EventsLoop {
    /// A wakeup handle of this loop.
    pub fn create_proxy(&self) -> (r: EventsLoopProxy)
        ensures
            r.wakeup_dummy_window == self.wakeup_dummy_window,
    {
        EventsLoopProxy { wakeup_dummy_window: self.wakeup_dummy_window }
    }
}

impl EventsLoopProxy {
    /// Requests a wakeup. `flag` is the loop's wakeup flag, `None` once the
    /// loop is gone; `display_open` says whether its connection still exists.
    /// On success the result names the window that the wakeup message goes to.
    pub fn wakeup(&self, flag: &mut Option<bool>, display_open: bool) -> (r: Result<WindowId, EventsLoopClosed>)
        ensures
            (r, *final(flag)) == wakeup_outcome(self.wakeup_dummy_window, *old(flag), display_open),
    {
        match flag {
            Some(_) => {
                if display_open {
                    *flag = Some(true);
                    Ok(WindowId(self.wakeup_dummy_window))
                } else {
                    Err(EventsLoopClosed)
                }
            },
            None => Err(EventsLoopClosed),
        }
    }
}

} // verus!
