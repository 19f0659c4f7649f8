//! An orchestrator for behavioural test suites: it binds to a directory of
//! feature descriptions, registers suites against it, and hands all of them,
//! joined into one unit of work, to a pluggable spawner. What the spawner
//! makes of the join is handed on to the caller, who awaits it.

pub mod definition;
pub mod error;
pub mod options;
pub mod path;
pub mod result;
pub mod spawners;
pub mod trellis;

pub use definition::CucumberTest;
pub use error::ConfigError;
pub use result::TestResult;
pub use trellis::CucumberTrellis;
pub use trellis::PathProbe;
