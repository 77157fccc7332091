use vstd::prelude::*;

verus! {

/// The four roles a STUN message can play, carried in two bits of the
/// message type field.
#[derive(Debug, Clone, Copy, PartialEq, Eq, Structural)]
pub enum StunMessageClass {
    Request,
    Indication,
    SuccessResponse,
    ErrorResponse,
}

/// The operation a STUN message concerns.
#[derive(Debug, Clone, Copy, PartialEq, Eq, Structural)]
pub enum StunMessageMethod {
    Binding,
}

impl StunMessageClass {
    /// The two-bit value of a class.
    pub open spec fn spec_bits(self) -> u16 {
        match self {
            StunMessageClass::Request => 0b00,
            StunMessageClass::Indication => 0b01,
            StunMessageClass::SuccessResponse => 0b10,
            StunMessageClass::ErrorResponse => 0b11,
        }
    }

    /// The class whose two-bit value is `v`, if there is one.
    pub open spec fn spec_from_bits(v: u16) -> Option<StunMessageClass> {
        if v == 0b00 {
            Some(StunMessageClass::Request)
        } else if v == 0b01 {
            Some(StunMessageClass::Indication)
        } else if v == 0b10 {
            Some(StunMessageClass::SuccessResponse)
        } else if v == 0b11 {
            Some(StunMessageClass::ErrorResponse)
        } else {
            None
        }
    }

    /// Returns the numeric value of the class.
    pub fn to_bits(self) -> (r: u16)
        ensures
            r == self.spec_bits(),
            r <= 0b11,
    {
        match self {
            StunMessageClass::Request => 0b00,
            StunMessageClass::Indication => 0b01,
            StunMessageClass::SuccessResponse => 0b10,
            StunMessageClass::ErrorResponse => 0b11,
        }
    }

    /// Converts a numeric value to a class; values with no class are rejected.
    pub fn try_from_bits(v: u16) -> (r: Option<StunMessageClass>)
        ensures
            r == Self::spec_from_bits(v),
            r is Some <==> v <= 0b11,
            r matches Some(c) ==> c.spec_bits() == v,
    {
        match v {
            0b00 => Some(StunMessageClass::Request),
            0b01 => Some(StunMessageClass::Indication),
            0b10 => Some(StunMessageClass::SuccessResponse),
            0b11 => Some(StunMessageClass::ErrorResponse),
            _ => None,
        }
    }
}

impl StunMessageMethod {
    /// The numeric value of a method.
    pub open spec fn spec_bits(self) -> u16 {
        match self {
            StunMessageMethod::Binding => 0x000,
        }
    }

    /// The method whose numeric value is `v`, if there is one.
    pub open spec fn spec_from_bits(v: u16) -> Option<StunMessageMethod> {
        if v == 0x000 {
            Some(StunMessageMethod::Binding)
        } else {
            None
        }
    }

    /// Returns the numeric value of the method.
    pub fn to_bits(self) -> (r: u16)
        ensures
            r == self.spec_bits(),
            r <= 0x0FFF,
    {
        match self {
            StunMessageMethod::Binding => 0x000,
        }
    }

    /// Converts a numeric value to a method; values with no method are rejected.
    pub fn try_from_bits(v: u16) -> (r: Option<StunMessageMethod>)
        ensures
            r == Self::spec_from_bits(v),
            r is Some <==> v == 0x000,
            r matches Some(m) ==> m.spec_bits() == v,
    {
        match v {
            0x000 => Some(StunMessageMethod::Binding),
            _ => None,
        }
    }
}

/// Every class is recovered from its numeric value.
pub proof fn lemma_class_bits_round_trip(c: StunMessageClass)
    ensures
        StunMessageClass::spec_from_bits(c.spec_bits()) == Some(c),
        c.spec_bits() <= 0b11,
{
}

/// Every method is recovered from its numeric value.
pub proof fn lemma_method_bits_round_trip(m: StunMessageMethod)
    ensures
        StunMessageMethod::spec_from_bits(m.spec_bits()) == Some(m),
        m.spec_bits() <= 0x0FFF,
{
}

} // verus!
