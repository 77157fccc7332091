use vstd::prelude::*;

verus! {

/// Declares nom's error code, which the short-input error carries.
#[verifier::external_type_specification]
#[verifier::external_body]
pub struct ExErrorKind(nom::error::ErrorKind);

/// The ways in which decoding a STUN message can fail.
#[derive(Debug, PartialEq)]
pub enum StunParseError<I> {
    /// The first two most significant bits of the message type must be zero
    InvalidMessageFirstTwoBitsError(u16),
    /// The message class, extracted from the message type field, is invalid
    InvalidMessageClassError(u16),
    /// The message method, extracted from the message type field, is invalid
    InvalidMessageMethodError(u16),
    /// The message length field is larger than the input that follows it
    InvalidMessageLengthTooLargeError(u16),
    /// The message length field is not 4 byte aligned
    InvalidMessageLengthNotAlignedError(u16),
    /// The magic cookie field does not contain the STUN value
    InvalidMagicCookieError(u32),
    /// The input ran out: the residual input where it did, and nom's code
    Nom(I, nom::error::ErrorKind),
}

/// The mathematical value of a decoding failure: the error without nom's
/// code, with the residual input as a sequence.
pub enum ParseFault {
    FirstTwoBits(u16),
    Class(u16),
    Method(u16),
    LengthTooLarge(u16),
    LengthNotAligned(u16),
    MagicCookie(u32),
    ShortInput(Seq<u8>),
}

impl<'a> StunParseError<&'a [u8]> {
    /// What the error states, as a `ParseFault`.
    pub open spec fn fault(&self) -> ParseFault {
        match *self {
            StunParseError::InvalidMessageFirstTwoBitsError(t) => ParseFault::FirstTwoBits(t),
            StunParseError::InvalidMessageClassError(t) => ParseFault::Class(t),
            StunParseError::InvalidMessageMethodError(t) => ParseFault::Method(t),
            StunParseError::InvalidMessageLengthTooLargeError(l) => ParseFault::LengthTooLarge(l),
            StunParseError::InvalidMessageLengthNotAlignedError(l) => ParseFault::LengthNotAligned(
                l,
            ),
            StunParseError::InvalidMagicCookieError(c) => ParseFault::MagicCookie(c),
            StunParseError::Nom(rest, _) => ParseFault::ShortInput(rest@),
        }
    }
}

} // verus!
