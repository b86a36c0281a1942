//! The persisted settings: the music root path and the volume slider
//! position. Reading and writing the settings file is the caller's business;
//! the orchestrator updates the values and says when to write them back.

use vstd::prelude::*;

use crate::fraction::UnitFraction;

verus! {

/// What is persisted between runs.
#[derive(Debug)]
pub struct Settings {
    pub root_music_path: String,
    pub volume: UnitFraction,
}

impl Settings {
    /// The volume is a valid fraction.
    pub open spec fn wf(self) -> bool {
        self.volume.wf()
    }

    /// An exact copy.
    pub fn duplicate(&self) -> (r: Settings)
        ensures
            r == *self,
    {
        Settings { root_music_path: self.root_music_path.clone(), volume: self.volume }
    }
}

impl Default for Settings {
    /// The values restored when no settings file is readable: no root path
    /// yet (the caller may substitute its working directory) and the volume
    /// at one half.
    fn default() -> (r: Settings)
        ensures
            r.root_music_path@ == Seq::<char>::empty(),
            r.volume.permille == 500,
            r.wf(),
    {
        Settings { root_music_path: String::new(), volume: UnitFraction { permille: 500 } }
    }
}

} // verus!
