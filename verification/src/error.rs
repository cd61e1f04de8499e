use vstd::prelude::*;

verus! {

/// The error codes a loader can return. Each maps onto the host runtime's
/// standard error-code enumeration; they are the only externally observable
/// output of this layer besides the validated handle itself.
#[derive(Clone, Copy, Debug, PartialEq, Eq, Structural)]
pub enum LoadError {
    /// A required signer capability is absent.
    MissingSignature,
    /// The supplied or derived address does not match the handle's address.
    InvalidSeeds,
    /// The handle's declared owner does not match the expected authority.
    InvalidAccountOwner,
    /// A populated account was expected but the buffer is empty.
    UninitializedAccount,
    /// An empty, default-owned account was expected but the buffer is
    /// non-empty or the owner is not the default allocator.
    AccountAlreadyInitialized,
    /// A decode failure, a length mismatch, or a decoded field that does not
    /// match its expected value.
    InvalidAccountData,
}

} // verus!
