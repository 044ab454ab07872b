//! The key usages that a certificate can be asked to carry.

use vstd::prelude::*;
use vstd::std_specs::convert::FromSpecImpl;
use x509_cert::ext::pkix::KeyUsages;

verus! {

/// A use that the certified key is allowed for: one bit of the key-usage
/// extension.
#[derive(Debug, Clone, Copy, PartialEq, Eq, Structural)]
pub enum KeyUsage {
    DigitalSignature,
    NonRepudiation,
    KeyEncipherment,
    DataEncipherment,
    KeyAgreement,
    KeyCertSign,
    CRLSign,
    EncipherOnly,
    DecipherOnly,
}

impl KeyUsage {
    /// The usage that a flag of the key-usage extension stands for.
    pub open spec fn of_flag(flag: KeyUsages) -> KeyUsage {
        match flag {
            KeyUsages::DigitalSignature => KeyUsage::DigitalSignature,
            KeyUsages::NonRepudiation => KeyUsage::NonRepudiation,
            KeyUsages::KeyEncipherment => KeyUsage::KeyEncipherment,
            KeyUsages::DataEncipherment => KeyUsage::DataEncipherment,
            KeyUsages::KeyAgreement => KeyUsage::KeyAgreement,
            KeyUsages::KeyCertSign => KeyUsage::KeyCertSign,
            KeyUsages::CRLSign => KeyUsage::CRLSign,
            KeyUsages::EncipherOnly => KeyUsage::EncipherOnly,
            KeyUsages::DecipherOnly => KeyUsage::DecipherOnly,
        }
    }

    /// The flag of the key-usage extension that stands for this usage.
    pub open spec fn flag(&self) -> KeyUsages {
        match self {
            KeyUsage::DigitalSignature => KeyUsages::DigitalSignature,
            KeyUsage::NonRepudiation => KeyUsages::NonRepudiation,
            KeyUsage::KeyEncipherment => KeyUsages::KeyEncipherment,
            KeyUsage::DataEncipherment => KeyUsages::DataEncipherment,
            KeyUsage::KeyAgreement => KeyUsages::KeyAgreement,
            KeyUsage::KeyCertSign => KeyUsages::KeyCertSign,
            KeyUsage::CRLSign => KeyUsages::CRLSign,
            KeyUsage::EncipherOnly => KeyUsages::EncipherOnly,
            KeyUsage::DecipherOnly => KeyUsages::DecipherOnly,
        }
    }
}

impl From<KeyUsages> for KeyUsage {
    fn from(usage: KeyUsages) -> (r: Self) {
        match usage {
            KeyUsages::DigitalSignature => KeyUsage::DigitalSignature,
            KeyUsages::NonRepudiation => KeyUsage::NonRepudiation,
            KeyUsages::KeyEncipherment => KeyUsage::KeyEncipherment,
            KeyUsages::DataEncipherment => KeyUsage::DataEncipherment,
            KeyUsages::KeyAgreement => KeyUsage::KeyAgreement,
            KeyUsages::KeyCertSign => KeyUsage::KeyCertSign,
            KeyUsages::CRLSign => KeyUsage::CRLSign,
            KeyUsages::EncipherOnly => KeyUsage::EncipherOnly,
            KeyUsages::DecipherOnly => KeyUsage::DecipherOnly,
        }
    }
}

impl FromSpecImpl<KeyUsages> for KeyUsage {
    open spec fn obeys_from_spec() -> bool {
        true
    }

    open spec fn from_spec(usage: KeyUsages) -> Self {
        KeyUsage::of_flag(usage)
    }
}

impl From<&KeyUsage> for KeyUsages {
    fn from(usage: &KeyUsage) -> (r: Self) {
        match usage {
            KeyUsage::DigitalSignature => KeyUsages::DigitalSignature,
            KeyUsage::NonRepudiation => KeyUsages::NonRepudiation,
            KeyUsage::KeyEncipherment => KeyUsages::KeyEncipherment,
            KeyUsage::DataEncipherment => KeyUsages::DataEncipherment,
            KeyUsage::KeyAgreement => KeyUsages::KeyAgreement,
            KeyUsage::KeyCertSign => KeyUsages::KeyCertSign,
            KeyUsage::CRLSign => KeyUsages::CRLSign,
            KeyUsage::EncipherOnly => KeyUsages::EncipherOnly,
            KeyUsage::DecipherOnly => KeyUsages::DecipherOnly,
        }
    }
}

impl FromSpecImpl<&KeyUsage> for KeyUsages {
    open spec fn obeys_from_spec() -> bool {
        true
    }

    open spec fn from_spec(usage: &KeyUsage) -> Self {
        usage.flag()
    }
}

/// Converting a usage to the extension's flag and back gives the usage again,
/// and the other way round.
pub proof fn lemma_key_usage_round_trip(usage: KeyUsage, flag: KeyUsages)
    ensures
        KeyUsage::of_flag(usage.flag()) == usage,
        KeyUsage::of_flag(flag).flag() == flag,
{
}

} // verus!
