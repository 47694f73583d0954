use vstd::prelude::*;

verus! {

/// Everything that can stop a launch before the backend runs. The launch
/// routine collects each of these into one result; the setup callback is
/// the sole handler and applies the startup policy to it.
#[derive(PartialEq, Eq, Debug)]
pub enum StartupError {
    /// The host could not supply a per-user writable data root.
    PathResolution,
    /// The data directory path is not representable as valid text.
    Encoding,
    /// Creating the data directory failed; carries the OS error text.
    Io(String),
    /// The bundling manifest has no entry for the backend binary, or the
    /// entry's path is not representable as valid text.
    ResourceNotFound,
    /// Spawning the backend executable failed; carries the OS error text.
    Launch(String),
}

} // verus!
