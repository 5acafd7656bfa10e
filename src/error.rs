use vstd::prelude::*;

verus! {

/// Why a top-level call of the factory aborts.
///
/// Every error is fatal to the call that raised it: the host rolls back the
/// factory's own state changes made during that call.
#[derive(Debug, Clone, Copy, PartialEq, Eq, Structural)]
pub enum FactoryError {
    /// The caller is not the owner (administrative operations) or not the
    /// configured inventory service (`unpack`).
    Authorization,
    /// A service handle that the operation needs has not been set.
    StateNotInitialized,
    /// No box is held by the factory, or no hero identifier is left.
    EmptyInventory,
    /// A remote call reported failure.
    ExternalCall,
    /// A continuation saw other than exactly one pending result, or a result
    /// payload did not decode.
    InvariantViolation,
}

/// The message reported to the user when a call fails with `e`.
pub open spec fn message_of(e: FactoryError) -> Seq<char> {
    match e {
        FactoryError::Authorization => "Only owner can do this"@,
        FactoryError::StateNotInitialized => "service handle is not set"@,
        FactoryError::EmptyInventory => "boxes are sold out"@,
        FactoryError::ExternalCall => "cross contract call failed"@,
        FactoryError::InvariantViolation => "This is a callback method"@,
    }
}

impl FactoryError {
    /// The message reported to the user when the call fails.
    pub fn message(&self) -> (r: String)
        ensures
            r@ == message_of(*self),
    {
        let s = match self {
            FactoryError::Authorization => "Only owner can do this",
            FactoryError::StateNotInitialized => "service handle is not set",
            FactoryError::EmptyInventory => "boxes are sold out",
            FactoryError::ExternalCall => "cross contract call failed",
            FactoryError::InvariantViolation => "This is a callback method",
        };
        s.to_string()
    }
}

} // verus!
