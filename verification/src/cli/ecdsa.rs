//! Choices for ECDSA keys.

use vstd::prelude::*;

verus! {

/// The curves that an ECDSA key can lie on.
#[derive(Debug, Clone, Copy, PartialEq, Eq, Structural)]
pub enum EcdsaCurve {
    /// NIST P-256, signed with SHA-256.
    P256,
    /// NIST P-384, signed with SHA-384.
    P384,
}

} // verus!
