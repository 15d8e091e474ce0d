use vstd::prelude::*;

use crate::config::{BuildError, ConfigError};
use crate::launch;
use crate::launch::LaunchError;

verus! {

/// Every failure that preparing or invoking a transform can report.
#[derive(Debug, Clone, Copy, PartialEq, Eq, Structural)]
pub enum Error {
    /// The transform description lacks a mandatory field.
    Build(BuildError),
    /// The transform description combines options the engine cannot take.
    Config(ConfigError),
    /// The launch parameters lack a command stream.
    LaunchBuild(launch::BuildError),
    /// An invocation binds a buffer role that the configuration already binds.
    Launch(LaunchError),
    /// The engine reported this non-success status code.
    Engine(u32),
}

/// The status code by which the engine reports success.
pub const ENGINE_SUCCESS: u32 = 0;

/// Turns an engine status code into a result: success, or the code as an error.
pub fn check_error(code: u32) -> (r: Result<(), Error>)
    ensures
        code == ENGINE_SUCCESS ==> r is Ok,
        code != ENGINE_SUCCESS ==> r == Err::<(), Error>(Error::Engine(code)),
{
    if code == ENGINE_SUCCESS {
        Ok(())
    } else {
        Err(Error::Engine(code))
    }
}

} // verus!
