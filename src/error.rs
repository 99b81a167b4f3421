use vstd::prelude::*;

verus! {

/// Why a record was not delivered.
#[derive(Debug, Clone, Copy, PartialEq, Eq, Structural)]
pub enum VioletError {
    /// A record was logged before any configuration was installed.
    NotInitialized,
    /// The envelope could not be encoded as JSON.
    Serialization,
    /// The collector answered with a status other than success, or could
    /// not be reached in time.
    Transport,
}

} // verus!
