use vstd::prelude::*;

verus! {

/// Registered STUN attribute types. The codec itself leaves attribute types
/// uninterpreted; these name the common ones.
#[derive(Debug, Clone, Copy, PartialEq, Eq, Structural)]
pub enum StunAttributeType {
    MappedAddress,
    Username,
    MessageIntegrity,
    ErrorCode,
    UnknownAttributes,
    Realm,
    Nonce,
    XorMappedAddress,
    Software,
    AlternateServer,
    Fingerprint,
}

impl StunAttributeType {
    /// The registered code of an attribute type.
    pub open spec fn spec_code(self) -> u16 {
        match self {
            StunAttributeType::MappedAddress => 0x0001,
            StunAttributeType::Username => 0x0006,
            StunAttributeType::MessageIntegrity => 0x0008,
            StunAttributeType::ErrorCode => 0x0009,
            StunAttributeType::UnknownAttributes => 0x000A,
            StunAttributeType::Realm => 0x0014,
            StunAttributeType::Nonce => 0x0015,
            StunAttributeType::XorMappedAddress => 0x0020,
            StunAttributeType::Software => 0x8022,
            StunAttributeType::AlternateServer => 0x8023,
            StunAttributeType::Fingerprint => 0x8028,
        }
    }

    /// Returns the registered code of the attribute type.
    pub fn code(self) -> (r: u16)
        ensures
            r == self.spec_code(),
    {
        match self {
            StunAttributeType::MappedAddress => 0x0001,
            StunAttributeType::Username => 0x0006,
            StunAttributeType::MessageIntegrity => 0x0008,
            StunAttributeType::ErrorCode => 0x0009,
            StunAttributeType::UnknownAttributes => 0x000A,
            StunAttributeType::Realm => 0x0014,
            StunAttributeType::Nonce => 0x0015,
            StunAttributeType::XorMappedAddress => 0x0020,
            StunAttributeType::Software => 0x8022,
            StunAttributeType::AlternateServer => 0x8023,
            StunAttributeType::Fingerprint => 0x8028,
        }
    }

    /// Returns the attribute type registered under `code`, if any.
    pub fn from_code(code: u16) -> (r: Option<StunAttributeType>)
        ensures
            r matches Some(t) ==> t.spec_code() == code,
            r is None ==> forall|t: StunAttributeType| t.spec_code() != code,
    {
        match code {
            0x0001 => Some(StunAttributeType::MappedAddress),
            0x0006 => Some(StunAttributeType::Username),
            0x0008 => Some(StunAttributeType::MessageIntegrity),
            0x0009 => Some(StunAttributeType::ErrorCode),
            0x000A => Some(StunAttributeType::UnknownAttributes),
            0x0014 => Some(StunAttributeType::Realm),
            0x0015 => Some(StunAttributeType::Nonce),
            0x0020 => Some(StunAttributeType::XorMappedAddress),
            0x8022 => Some(StunAttributeType::Software),
            0x8023 => Some(StunAttributeType::AlternateServer),
            0x8028 => Some(StunAttributeType::Fingerprint),
            _ => None,
        }
    }
}

} // verus!
