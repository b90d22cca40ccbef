//! The daemon's run state.
use vstd::prelude::*;

verus! {

/// How many polls the daemon has run.
#[derive(Debug, Clone, Copy, PartialEq, Eq)]
pub struct RuntimeState {
    pub poll_count: u64,
}

impl Default for RuntimeState {
    fn default() -> (r: Self)
        ensures
            r.poll_count == 0,
    {
        RuntimeState { poll_count: 0 }
    }
}

/// Whether the screen state comes from the netlink watcher: its last update
/// is under a minute old (in seconds since the epoch). Otherwise the screen
/// state is read directly.
pub fn netlink_screen_state_fresh(now_secs: u64, last_update_secs: u64) -> (r: bool)
    ensures
        r == (now_secs >= last_update_secs && now_secs - last_update_secs < 60),
{
    now_secs >= last_update_secs && now_secs - last_update_secs < 60
}

} // verus!
