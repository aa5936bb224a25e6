//! The command line of the player: an optional file or directory to play,
//! and whether the audio visualizer is on.

use vstd::prelude::*;

verus! {

/// The parsed command line.
pub struct Args {
    /// The file or directory to play, as given.
    pub audio_file: Option<String>,
    /// Whether `--visualize` was given.
    pub visualize: bool,
}

} // verus!
