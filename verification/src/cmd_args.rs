//! The settings of a run, and the rule that they must name an image.

use vstd::prelude::*;

verus! {

/// How much is to be logged.
#[derive(Clone, Copy, Debug, PartialEq, Eq, Structural)]
pub enum LogLevel {
    /// Nothing.
    Off,
    /// Errors.
    Error,
    /// Warnings and what is above.
    Warn,
    /// Information and what is above.
    Info,
    /// Debugging output and what is above.
    Debug,
    /// Everything.
    Trace,
}

impl LogLevel {
    /// The name of the level as the logger knows it.
    pub open spec fn name(self) -> Seq<char> {
        match self {
            LogLevel::Off => "none"@,
            LogLevel::Error => "error"@,
            LogLevel::Warn => "warn"@,
            LogLevel::Info => "info"@,
            LogLevel::Debug => "debug"@,
            LogLevel::Trace => "trace"@,
        }
    }

    /// The name of the level as the logger knows it.
    pub fn as_ref(&self) -> (r: &'static str)
        ensures
            r@ == self.name(),
    {
        match self {
            LogLevel::Off => "none",
            LogLevel::Error => "error",
            LogLevel::Warn => "warn",
            LogLevel::Info => "info",
            LogLevel::Debug => "debug",
            LogLevel::Trace => "trace",
        }
    }

    /// The name of the level, as a string of its own.
    pub fn to_string(&self) -> (r: String)
        ensures
            r@ == self.name(),
    {
        self.as_ref().to_owned()
    }
}

/// Why the settings cannot be used.
#[derive(Clone, Copy, Debug, PartialEq, Eq, Structural)]
pub enum OptionsError {
    /// No image is named.
    NoTargetFiles,
}

/// The settings of a run.
#[derive(Clone, Debug, PartialEq, Eq)]
pub struct Options {
    log_level: LogLevel,
    municd_cache: String,
    target_files: Vec<String>,
}

impl Options {
    /// Settings with the given log level, path of the cache file of the
    /// municipality table, and paths of the images to look at.
    pub fn new(log_level: LogLevel, municd_cache: String, target_files: Vec<String>) -> (r: Self)
        ensures
            r.spec_log_level() == log_level,
            r.spec_municd_cache() == municd_cache@,
            r.spec_target_files() == target_files@,
    {
        Options { log_level, municd_cache, target_files }
    }

    /// The log level.
    pub closed spec fn spec_log_level(&self) -> LogLevel {
        self.log_level
    }

    /// The path of the cache file, as characters.
    pub closed spec fn spec_municd_cache(&self) -> Seq<char> {
        self.municd_cache@
    }

    /// The paths of the images.
    pub closed spec fn spec_target_files(&self) -> Seq<String> {
        self.target_files@
    }

    /// The log level.
    pub fn log_level(&self) -> (r: LogLevel)
        ensures
            r == self.spec_log_level(),
    {
        self.log_level
    }

    /// The path of the cache file of the municipality table.
    pub fn municd_cache(&self) -> (r: String)
        ensures
            r@ == self.spec_municd_cache(),
    {
        self.municd_cache.clone()
    }

    /// The paths of the images to look at.
    pub fn target_files(&self) -> (r: &Vec<String>)
        ensures
            r@ == self.spec_target_files(),
    {
        &self.target_files
    }

    /// Checks the settings: at least one image must be named.
    pub fn validate(&self) -> (r: Result<(), OptionsError>)
        ensures
            r == if self.spec_target_files().len() == 0 {
                Err::<(), OptionsError>(OptionsError::NoTargetFiles)
            } else {
                Ok::<(), OptionsError>(())
            },
    {
        if self.target_files.len() == 0 {
            return Err(OptionsError::NoTargetFiles);
        }
        Ok(())
    }
}

} // verus!
