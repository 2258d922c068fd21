//! The preferences of the tab bar.

use vstd::prelude::*;

verus! {

/// The preferences of the tab bar.
#[derive(Clone, Copy, Debug, PartialEq, Eq, Structural)]
pub struct Settings {
    /// Whether the strip is drawn dark.
    pub dark_mode: bool,
}

impl Default for Settings {
    /// The strip is drawn dark unless a preference says otherwise.
    fn default() -> (settings: Self)
        ensures
            settings.dark_mode,
    {
        Settings { dark_mode: true }
    }
}

/// The settings in force, given what was read of the stored preferences:
/// these where they could be read, the defaults where not.
pub fn current_settings(stored: Option<Settings>) -> (settings: Settings)
    ensures
        settings == match stored {
            Some(stored) => stored,
            None => Settings { dark_mode: true },
        },
{
    match stored {
        Some(stored) => stored,
        None => Settings::default(),
    }
}

} // verus!
