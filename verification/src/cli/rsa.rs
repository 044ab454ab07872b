//! Choices for RSA keys.

use vstd::prelude::*;

verus! {

/// The modulus sizes that an RSA key can be generated with.
#[derive(Debug, Clone, Copy, PartialEq, Eq, Structural)]
pub enum RSAKeySize {
    RSA1024,
    RSA2048,
    RSA3072,
    RSA4096,
}

impl RSAKeySize {
    /// The size of the modulus in bits.
    pub open spec fn spec_bits(&self) -> usize {
        match self {
            RSAKeySize::RSA1024 => 1024,
            RSAKeySize::RSA2048 => 2048,
            RSAKeySize::RSA3072 => 3072,
            RSAKeySize::RSA4096 => 4096,
        }
    }

    /// The size of the modulus in bits.
    #[verifier::when_used_as_spec(spec_bits)]
    pub fn bits(&self) -> (n: usize)
        ensures
            n == self.spec_bits(),
    {
        match self {
            RSAKeySize::RSA1024 => 1024,
            RSAKeySize::RSA2048 => 2048,
            RSAKeySize::RSA3072 => 3072,
            RSAKeySize::RSA4096 => 4096,
        }
    }
}

/// The padding that an RSA signature is made with.
#[derive(Debug, Clone, Copy, PartialEq, Eq, Structural)]
pub enum RSASigningMode {
    /// RSASSA-PKCS1-v1_5.
    Pkcs1v15,
    /// RSASSA-PSS.
    Pss,
}

} // verus!
