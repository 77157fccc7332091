use vstd::prelude::*;
use crate::constants::STUN_TRANSACTION_ID_NUM_BYTES;
use crate::errors::{ParseFault, StunParseError};
use crate::wire::{be16, be32};

verus! {

/// Relies on nom::number::complete::be_u16 over a byte slice: with two bytes
/// or more it returns their big-endian value and the bytes after them; with
/// fewer it fails with an `Error` that holds the whole input.
#[verifier::external_body]
pub(crate) fn read_be_u16<'a>(input: &'a [u8]) -> (r: Result<(&'a [u8], u16), StunParseError<&'a [u8]>>)
    ensures
        r is Ok <==> input@.len() >= 2,
        r matches Ok((rest, v)) ==> v == be16(input@) && rest@ == input@.skip(2),
        r matches Err(e) ==> e.fault() == ParseFault::ShortInput(input@),
{
    match nom::Finish::finish(nom::number::complete::be_u16::<&'a [u8], nom::error::Error<&'a [u8]>>(input)) {
        Ok(res) => Ok(res),
        Err(e) => Err(StunParseError::Nom(e.input, e.code)),
    }
}

/// Relies on nom::number::complete::be_u32 over a byte slice: with four bytes
/// or more it returns their big-endian value and the bytes after them; with
/// fewer it fails with an `Error` that holds the whole input.
#[verifier::external_body]
pub(crate) fn read_be_u32<'a>(input: &'a [u8]) -> (r: Result<(&'a [u8], u32), StunParseError<&'a [u8]>>)
    ensures
        r is Ok <==> input@.len() >= 4,
        r matches Ok((rest, v)) ==> v == be32(input@) && rest@ == input@.skip(4),
        r matches Err(e) ==> e.fault() == ParseFault::ShortInput(input@),
{
    match nom::Finish::finish(nom::number::complete::be_u32::<&'a [u8], nom::error::Error<&'a [u8]>>(input)) {
        Ok(res) => Ok(res),
        Err(e) => Err(StunParseError::Nom(e.input, e.code)),
    }
}

/// Relies on nom::bytes::complete::take over a byte slice: with `count` bytes
/// or more it splits off the first `count` (result: the rest, then those);
/// with fewer it fails with an `Error` that holds the whole input.
#[verifier::external_body]
pub(crate) fn take_bytes<'a>(input: &'a [u8], count: usize) -> (r: Result<
    (&'a [u8], &'a [u8]),
    StunParseError<&'a [u8]>,
>)
    ensures
        r is Ok <==> count <= input@.len(),
        r matches Ok((rest, taken)) ==> taken@ == input@.take(count as int) && rest@ == input@.skip(count as int),
        r matches Err(e) ==> e.fault() == ParseFault::ShortInput(input@),
{
    match nom::Finish::finish(nom::bytes::complete::take::<usize, &'a [u8], nom::error::Error<&'a [u8]>>(count)(input)) {
        Ok(res) => Ok(res),
        Err(e) => Err(StunParseError::Nom(e.input, e.code)),
    }
}

/// Relies on std's `TryFrom<&[T]> for &[T; N]`, which succeeds exactly when
/// the slice holds `N` items, and then refers to the same items.
#[verifier::external_body]
pub(crate) fn as_transaction_id<'a>(s: &'a [u8]) -> (r: Option<&'a [u8; STUN_TRANSACTION_ID_NUM_BYTES]>)
    ensures
        r is Some <==> s@.len() == STUN_TRANSACTION_ID_NUM_BYTES,
        r matches Some(a) ==> a@ == s@,
{
    <&'a [u8; STUN_TRANSACTION_ID_NUM_BYTES]>::try_from(s).ok()
}

} // verus!
