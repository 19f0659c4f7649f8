//! Configuration errors: a broken set-up found while a trellis is built.

use vstd::prelude::*;
use vstd::string::*;

verus! {

/// Why a trellis could not be bound to its root, or a suite not registered.
/// Each variant carries the path that was at fault.
#[derive(Debug, Clone, PartialEq, Eq)]
pub enum ConfigError {
    /// A path that has to start at the root directory does not: the working
    /// directory, or a root handed over as resolved.
    PathIsNotAbsolute { path: String },
    /// Nothing exists at the resolved root.
    PathDoesNotExist { path: String },
    /// The resolved root exists and is no directory.
    PathIsNotADirectory { path: String },
    /// The feature description of a suite is missing below the root.
    FeatureFileDoesNotExist { path: String },
}

impl ConfigError {
    /// The path that the error is about, as text.
    pub open spec fn path_text(&self) -> Seq<char> {
        match self {
            ConfigError::PathIsNotAbsolute { path } => path@,
            ConfigError::PathDoesNotExist { path } => path@,
            ConfigError::PathIsNotADirectory { path } => path@,
            ConfigError::FeatureFileDoesNotExist { path } => path@,
        }
    }

    /// The fixed words that open the message of the error.
    pub open spec fn headline(&self) -> Seq<char> {
        match self {
            ConfigError::PathIsNotAbsolute { .. } => "Path is not absolute: "@,
            ConfigError::PathDoesNotExist { .. } => "Path does not exist: "@,
            ConfigError::PathIsNotADirectory { .. } => "Path is not a directory: "@,
            ConfigError::FeatureFileDoesNotExist { .. } => "Feature file does not exist: "@,
        }
    }

    /// The message of the error: its headline, then the path.
    pub open spec fn message_text(&self) -> Seq<char> {
        self.headline() + self.path_text()
    }

    /// The path that the error is about.
    pub fn path(&self) -> (path: &str)
        ensures
            path@ == self.path_text(),
    {
        match self {
            ConfigError::PathIsNotAbsolute { path } => path.as_str(),
            ConfigError::PathDoesNotExist { path } => path.as_str(),
            ConfigError::PathIsNotADirectory { path } => path.as_str(),
            ConfigError::FeatureFileDoesNotExist { path } => path.as_str(),
        }
    }

    /// Renders the error for a person to read.
    pub fn message(&self) -> (message: String)
        ensures
            message@ == self.message_text(),
    {
        let headline = match self {
            ConfigError::PathIsNotAbsolute { .. } => "Path is not absolute: ",
            ConfigError::PathDoesNotExist { .. } => "Path does not exist: ",
            ConfigError::PathIsNotADirectory { .. } => "Path is not a directory: ",
            ConfigError::FeatureFileDoesNotExist { .. } => "Feature file does not exist: ",
        };
        String::from_str(headline).concat(self.path())
    }
}

} // verus!
