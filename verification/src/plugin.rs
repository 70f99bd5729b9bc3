use vstd::prelude::*;

verus! {

/// The plugin as the server loads it.
pub struct Plugin {}

impl Plugin {
    /// The plugin before it is loaded.
    pub fn new() -> (res: Self)
        ensures
            res == (Plugin {}),
    {
        Plugin {}
    }
}

impl Default for Plugin {
    fn default() -> (res: Self)
        ensures
            res == (Plugin {}),
    {
        Self::new()
    }
}

} // verus!
