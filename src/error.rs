use vstd::prelude::*;

verus! {

/// Why a window could not be created.
#[derive(Clone, Copy, Debug, PartialEq, Eq, Structural)]
pub enum Error {
    /// The native class registration rejected the descriptor (native error code).
    ClassRegistrationFailed(u32),
    /// The native window instantiation returned no handle (native error code).
    WindowCreationFailed(u32),
    /// The creation thread ended before it published a result.
    CoordinationFailure,
}

} // verus!
