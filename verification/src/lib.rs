use vstd::prelude::*;

pub mod asset;
pub mod controls;
pub mod renderer;

verus! {

/// A system that reports each tick of the game loop.
pub struct LoggingSystem;

impl LoggingSystem {
    /// The line the system logs on every tick.
    pub fn tick_message(&self) -> (line: &'static str)
        ensures
            line@ == "Tick triggered"@,
    {
        "Tick triggered"
    }
}

} // verus!
