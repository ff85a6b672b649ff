//! The daemon's settings.

use vstd::prelude::*;

verus! {

/// What the operator can set in the daemon's configuration file.
#[derive(Debug, Clone, Copy, PartialEq, Eq)]
pub struct Settings {
    /// Seconds to wait between two synchronisation cycles.
    pub sync_interval: u64,
    /// Whether the daemon ends after a cycle in which a repository failed.
    pub stop_on_error: bool,
    /// Seconds granted to one Git operation.
    pub git_timeout: u64,
    /// How often an operation that failed is tried again.
    pub max_retries: u32,
    /// Whether progress is reported, beyond errors.
    pub verbose: bool,
    /// Whether cycles follow each other until the daemon is stopped.
    pub continuous_mode: bool,
}

/// The settings of a daemon that has been given none: a cycle every minute,
/// without end, that reports its progress and stops on the first failure.
pub open spec fn default_settings() -> Settings {
    Settings {
        sync_interval: 60,
        stop_on_error: true,
        git_timeout: 300,
        max_retries: 0,
        verbose: true,
        continuous_mode: true,
    }
}

impl Default for Settings {
    fn default() -> (settings: Self)
        ensures
            settings == default_settings(),
    {
        Settings {
            sync_interval: 60,
            stop_on_error: true,
            git_timeout: 300,
            max_retries: 0,
            verbose: true,
            continuous_mode: true,
        }
    }
}

impl Settings {
    /// The settings to start with, given what the settings file held:
    /// `loaded` where it could be read, else the defaults. The second part
    /// tells whether the defaults are to be written to the file.
    pub fn load_or_create(loaded: Option<Settings>) -> (r: (Settings, bool))
        ensures
            r == match loaded {
                Some(settings) => (settings, false),
                None => (default_settings(), true),
            },
    {
        match loaded {
            Some(settings) => (settings, false),
            None => (Settings::default(), true),
        }
    }

    /// Takes over `loaded`, what the settings file holds now, where it could
    /// be read; keeps the settings as they are where it could not. Tells
    /// whether the change is to be announced: it is where progress was
    /// reported before and still is.
    pub fn reload(&mut self, loaded: Option<Settings>) -> (announce: bool)
        ensures
            *final(self) == match loaded {
                Some(settings) => settings,
                None => *old(self),
            },
            announce == (loaded is Some && old(self).verbose && final(self).verbose),
    {
        match loaded {
            Some(settings) => {
                let was_verbose = self.verbose;
                *self = settings;
                was_verbose && self.verbose
            },
            None => false,
        }
    }
}

} // verus!
