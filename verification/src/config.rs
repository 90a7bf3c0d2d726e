//! The applet's persisted settings.

use vstd::prelude::*;

verus! {

/// Settings of the applet, read once when it starts.
#[derive(Clone, Copy, Debug, PartialEq, Eq, Structural)]
pub struct Config {
    /// Seconds between two readings of the memory statistics.
    pub refresh_time: u64,
}

impl Default for Config {
    /// The settings of an applet that was never configured: a reading every three seconds.
    fn default() -> (config: Self)
        ensures
            config.refresh_time == 3,
    {
        Config { refresh_time: 3 }
    }
}

} // verus!
