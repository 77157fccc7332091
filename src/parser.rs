use vstd::prelude::*;
use crate::attribute::{AttributeModel, StunAttribute};
use crate::constants::{
    STUN_FIXED_HEADER_AFTER_LENGTH_NUM_BYTES, STUN_MAGIC_COOKIE, STUN_MESSAGE_CLASS_MASK_BIT_0,
    STUN_MESSAGE_CLASS_MASK_BIT_1, STUN_MESSAGE_CLASS_SHIFT_BIT_0, STUN_MESSAGE_CLASS_SHIFT_BIT_1,
    STUN_MESSAGE_METHOD_MASK_BIT_0_3, STUN_MESSAGE_METHOD_MASK_BIT_4_6,
    STUN_MESSAGE_METHOD_MASK_BIT_7_11, STUN_MESSAGE_METHOD_SHIFT_BIT_0_3,
    STUN_MESSAGE_METHOD_SHIFT_BIT_4_6, STUN_MESSAGE_METHOD_SHIFT_BIT_7_11,
    STUN_MESSAGE_TYPE_ZERO_MASK, STUN_TRANSACTION_ID_NUM_BYTES,
};
use crate::errors::{ParseFault, StunParseError};
use crate::message::{MessageModel, StunMessage};
use crate::message_types::{StunMessageClass, StunMessageMethod};
use crate::reader::{as_transaction_id, read_be_u16, read_be_u32, take_bytes};
use crate::wire::{be16, be32, class_of_type, method_of_type, padding_len};

verus! {

// ---------------------------------------------------------------------------
// The wire format, as functions from bytes to values or faults
// ---------------------------------------------------------------------------

/// The class and method that a 16-bit message type carries.
pub open spec fn message_type_value(t: u16) -> Result<(StunMessageClass, StunMessageMethod), ParseFault> {
    if t & 0xC000 != 0 {
        Err(ParseFault::FirstTwoBits(t))
    } else {
        match StunMessageClass::spec_from_bits(class_of_type(t)) {
            None => Err(ParseFault::Class(t)),
            Some(c) => match StunMessageMethod::spec_from_bits(method_of_type(t)) {
                None => Err(ParseFault::Method(t)),
                Some(m) => Ok((c, m)),
            },
        }
    }
}

/// The message type field at the front of `s` (2 bytes).
pub open spec fn message_type_model(s: Seq<u8>) -> Result<(StunMessageClass, StunMessageMethod), ParseFault> {
    if s.len() < 2 {
        Err(ParseFault::ShortInput(s))
    } else {
        message_type_value(be16(s))
    }
}

/// The length field at the front of `s` (2 bytes): a multiple of 4, with
/// the cookie, the transaction id and that many bytes after it in `s`.
pub open spec fn message_length_model(s: Seq<u8>) -> Result<u16, ParseFault> {
    if s.len() < 2 {
        Err(ParseFault::ShortInput(s))
    } else if be16(s) % 4 != 0 {
        Err(ParseFault::LengthNotAligned(be16(s)))
    } else if be16(s) + 16 > s.len() - 2 {
        Err(ParseFault::LengthTooLarge(be16(s)))
    } else {
        Ok(be16(s))
    }
}

/// The magic cookie field at the front of `s` (4 bytes).
pub open spec fn magic_cookie_model(s: Seq<u8>) -> Result<u32, ParseFault> {
    if s.len() < 4 {
        Err(ParseFault::ShortInput(s))
    } else if be32(s) != STUN_MAGIC_COOKIE {
        Err(ParseFault::MagicCookie(be32(s)))
    } else {
        Ok(be32(s))
    }
}

/// The transaction id at the front of `s` (12 bytes).
pub open spec fn transaction_id_model(s: Seq<u8>) -> Result<Seq<u8>, ParseFault> {
    if s.len() < 12 {
        Err(ParseFault::ShortInput(s))
    } else {
        Ok(s.take(12))
    }
}

/// Number of bytes that an attribute whose value has `len` bytes takes on
/// the wire: type, length, value and padding.
pub open spec fn attribute_record_len(len: u16) -> nat {
    (4 + len + padding_len(len)) as nat
}

/// The attribute at the front of `s`, with the number of bytes it takes.
/// A short input fails with what is left where the input ran out.
pub open spec fn attribute_model(s: Seq<u8>) -> Result<(AttributeModel, nat), ParseFault> {
    if s.len() < 2 {
        Err(ParseFault::ShortInput(s))
    } else if s.len() < 4 {
        Err(ParseFault::ShortInput(s.skip(2)))
    } else {
        let len = be16(s.skip(2));
        if s.len() < 4 + len {
            Err(ParseFault::ShortInput(s.skip(4)))
        } else if s.len() < attribute_record_len(len) {
            Err(ParseFault::ShortInput(s.skip(4 + len)))
        } else {
            Ok(
                (
                    AttributeModel {
                        attribute_type: be16(s),
                        attribute_length: len,
                        value: s.subrange(4, 4 + len),
                    },
                    attribute_record_len(len),
                ),
            )
        }
    }
}

/// The attributes that make up all of `s`, in order.
pub open spec fn attributes_model(s: Seq<u8>) -> Result<Seq<AttributeModel>, ParseFault>
    decreases s.len(),
{
    if s.len() == 0 {
        Ok(seq![])
    } else {
        match attribute_model(s) {
            Err(f) => Err(f),
            Ok((a, n)) => match attributes_model(s.skip(n as int)) {
                Err(f) => Err(f),
                Ok(rest) => Ok(seq![a] + rest),
            },
        }
    }
}

/// The message at the front of `input`, with the number of bytes it takes:
/// the 20-byte header and the attributes section whose size the length
/// field gives. Each field is checked in wire order; the first fault found
/// is the result.
pub open spec fn stun_message_model(input: Seq<u8>) -> Result<(MessageModel, nat), ParseFault> {
    match message_type_model(input) {
        Err(f) => Err(f),
        Ok((class, method)) => match message_length_model(input.skip(2)) {
            Err(f) => Err(f),
            Ok(length) => match magic_cookie_model(input.skip(4)) {
                Err(f) => Err(f),
                Ok(cookie) => match transaction_id_model(input.skip(8)) {
                    Err(f) => Err(f),
                    Ok(tid) => match attributes_model(input.subrange(20, 20 + length)) {
                        Err(f) => Err(f),
                        Ok(attributes) => Ok(
                            (
                                MessageModel {
                                    class,
                                    method,
                                    length,
                                    magic_cookie: cookie,
                                    transaction_id: tid,
                                    attributes,
                                },
                                (20 + length) as nat,
                            ),
                        ),
                    },
                },
            },
        },
    }
}

/// The value of a decoded attribute list.
pub open spec fn attributes_view<'a>(v: Seq<StunAttribute<'a>>) -> Seq<AttributeModel> {
    v.map_values(|a: StunAttribute<'a>| a@)
}

// ---------------------------------------------------------------------------
// The decoder
// ---------------------------------------------------------------------------

/// Parses a STUN message from the front of `input`.
///
/// On success the result holds the input after the message and the message,
/// whose attributes refer to the bytes of `input`. The attributes section is
/// exactly the number of bytes that the length field gives; bytes after it
/// are left to the caller. Any structural fault fails the whole decode.
pub fn parse_stun_message<'a>(input: &'a [u8]) -> (r: Result<(&'a [u8], StunMessage<'a>), StunParseError<&'a [u8]>>)
    ensures
        r is Ok <==> stun_message_model(input@) is Ok,
        r matches Ok((rest, msg)) ==> stun_message_model(input@) == Ok::<(MessageModel, nat), ParseFault>((msg@, (20 + msg.message_length) as nat)) && rest@ == input@.skip(20 + msg.message_length),
        r matches Err(e) ==> stun_message_model(input@) == Err::<(MessageModel, nat), ParseFault>(e.fault()),
{
    let (rest, (message_class, message_method)) = match parse_message_type(input) {
        Ok(v) => v,
        Err(e) => return Err(e),
    };
    let (rest, message_length) = match parse_message_length(rest) {
        Ok(v) => v,
        Err(e) => return Err(e),
    };
    let (rest, magic_cookie) = match parse_magic_cookie(rest) {
        Ok(v) => v,
        Err(e) => return Err(e),
    };
    let (rest, transaction_id) = match parse_transaction_id(rest) {
        Ok(v) => v,
        Err(e) => return Err(e),
    };
    let (section, after) = rest.split_at(message_length as usize);
    assert(section@ =~= input@.subrange(20, 20 + message_length));
    assert(after@ =~= input@.skip(20 + message_length));
    let (_, attributes) = match parse_attributes(section) {
        Ok(v) => v,
        Err(e) => return Err(e),
    };
    let message = StunMessage {
        message_class,
        message_method,
        message_length,
        magic_cookie,
        transaction_id,
        attributes,
    };
    assert(message@.transaction_id =~= input@.skip(8).take(12));
    Ok((after, message))
}

/// Parses the message type field: its two leading bits, its class and its
/// method, in that order.
pub fn parse_message_type<'a>(input: &'a [u8]) -> (r: Result<(&'a [u8], (StunMessageClass, StunMessageMethod)), StunParseError<&'a [u8]>>)
    ensures
        r is Ok <==> message_type_model(input@) is Ok,
        r matches Ok((rest, v)) ==> message_type_model(input@) == Ok::<(StunMessageClass, StunMessageMethod), ParseFault>(v) && rest@ == input@.skip(2),
        r matches Err(e) ==> message_type_model(input@) == Err::<(StunMessageClass, StunMessageMethod), ParseFault>(e.fault()),
{
    let (input, message_type) = match read_be_u16(input) {
        Ok(v) => v,
        Err(e) => return Err(e),
    };
    let (input, _) = match parse_leading_zero(input, message_type) {
        Ok(v) => v,
        Err(e) => return Err(e),
    };
    let (input, message_class) = match parse_message_class(input, message_type) {
        Ok(v) => v,
        Err(e) => return Err(e),
    };
    let (input, message_method) = match parse_message_method(input, message_type) {
        Ok(v) => v,
        Err(e) => return Err(e),
    };
    Ok((input, (message_class, message_method)))
}

/// Checks that the two leading bits of a message type are zero.
pub fn parse_leading_zero<'a>(input: &'a [u8], message_type: u16) -> (r: Result<(&'a [u8], ()), StunParseError<&'a [u8]>>)
    ensures
        r == (if message_type & 0xC000 == 0 { Ok((input, ())) } else { Err(StunParseError::<&'a [u8]>::InvalidMessageFirstTwoBitsError(message_type)) }),
{
    let zero_bits = message_type & STUN_MESSAGE_TYPE_ZERO_MASK;
    if zero_bits == 0 {
        Ok((input, ()))
    } else {
        Err(StunParseError::InvalidMessageFirstTwoBitsError(message_type))
    }
}

/// Extracts the class of a message type from its bits 4 and 8.
pub fn parse_message_class<'a>(input: &'a [u8], message_type: u16) -> (r: Result<(&'a [u8], StunMessageClass), StunParseError<&'a [u8]>>)
    ensures
        r == (match StunMessageClass::spec_from_bits(class_of_type(message_type)) {
            Some(c) => Ok((input, c)),
            None => Err(StunParseError::<&'a [u8]>::InvalidMessageClassError(message_type)),
        }),
{
    let class_bits = ((message_type & STUN_MESSAGE_CLASS_MASK_BIT_0) >> STUN_MESSAGE_CLASS_SHIFT_BIT_0)
        | ((message_type & STUN_MESSAGE_CLASS_MASK_BIT_1) >> STUN_MESSAGE_CLASS_SHIFT_BIT_1);
    match StunMessageClass::try_from_bits(class_bits) {
        Some(class) => Ok((input, class)),
        None => Err(StunParseError::<&'a [u8]>::InvalidMessageClassError(message_type)),
    }
}

/// Extracts the method of a message type from its bits 0-3, 5-7 and 9-13.
pub fn parse_message_method<'a>(input: &'a [u8], message_type: u16) -> (r: Result<(&'a [u8], StunMessageMethod), StunParseError<&'a [u8]>>)
    ensures
        r == (match StunMessageMethod::spec_from_bits(method_of_type(message_type)) {
            Some(m) => Ok((input, m)),
            None => Err(StunParseError::<&'a [u8]>::InvalidMessageMethodError(message_type)),
        }),
{
    let method_bits = ((message_type & STUN_MESSAGE_METHOD_MASK_BIT_0_3) >> STUN_MESSAGE_METHOD_SHIFT_BIT_0_3)
        | ((message_type & STUN_MESSAGE_METHOD_MASK_BIT_4_6) >> STUN_MESSAGE_METHOD_SHIFT_BIT_4_6)
        | ((message_type & STUN_MESSAGE_METHOD_MASK_BIT_7_11) >> STUN_MESSAGE_METHOD_SHIFT_BIT_7_11);
    assert(method_bits == method_of_type(message_type)) by (bit_vector)
        requires
            method_bits == ((message_type & 0x000F) >> 0u16) | ((message_type & 0x00E0) >> 1u16)
                | ((message_type & 0x3E00) >> 2u16),
    ;
    match StunMessageMethod::try_from_bits(method_bits) {
        Some(method) => Ok((input, method)),
        None => Err(StunParseError::<&'a [u8]>::InvalidMessageMethodError(message_type)),
    }
}

/// Parses the length field and checks it against the input that follows.
pub fn parse_message_length<'a>(input: &'a [u8]) -> (r: Result<(&'a [u8], u16), StunParseError<&'a [u8]>>)
    ensures
        r is Ok <==> message_length_model(input@) is Ok,
        r matches Ok((rest, v)) ==> message_length_model(input@) == Ok::<u16, ParseFault>(v) && rest@ == input@.skip(2),
        r matches Err(e) ==> message_length_model(input@) == Err::<u16, ParseFault>(e.fault()),
{
    let (input, message_length) = match read_be_u16(input) {
        Ok(v) => v,
        Err(e) => return Err(e),
    };
    // the length must be a multiple of 4
    if message_length % 4 != 0 {
        return Err(StunParseError::InvalidMessageLengthNotAlignedError(message_length));
    }
    // the length does not count the magic cookie and the transaction id,
    // which must follow too
    let min_remaining_size = message_length as usize + STUN_FIXED_HEADER_AFTER_LENGTH_NUM_BYTES;
    if min_remaining_size > input.len() {
        return Err(StunParseError::InvalidMessageLengthTooLargeError(message_length));
    }
    Ok((input, message_length))
}

/// Parses the magic cookie field.
pub fn parse_magic_cookie<'a>(input: &'a [u8]) -> (r: Result<(&'a [u8], u32), StunParseError<&'a [u8]>>)
    ensures
        r is Ok <==> magic_cookie_model(input@) is Ok,
        r matches Ok((rest, v)) ==> magic_cookie_model(input@) == Ok::<u32, ParseFault>(v) && rest@ == input@.skip(4),
        r matches Err(e) ==> magic_cookie_model(input@) == Err::<u32, ParseFault>(e.fault()),
{
    let (input, magic_cookie) = match read_be_u32(input) {
        Ok(v) => v,
        Err(e) => return Err(e),
    };
    if magic_cookie == STUN_MAGIC_COOKIE {
        Ok((input, magic_cookie))
    } else {
        Err(StunParseError::InvalidMagicCookieError(magic_cookie))
    }
}

/// Parses the transaction id, which refers to the bytes of `input`.
pub fn parse_transaction_id<'a>(input: &'a [u8]) -> (r: Result<(&'a [u8], &'a [u8; STUN_TRANSACTION_ID_NUM_BYTES]), StunParseError<&'a [u8]>>)
    ensures
        r is Ok <==> transaction_id_model(input@) is Ok,
        r matches Ok((rest, v)) ==> transaction_id_model(input@) == Ok::<Seq<u8>, ParseFault>(v@) && rest@ == input@.skip(12),
        r matches Err(e) ==> transaction_id_model(input@) == Err::<Seq<u8>, ParseFault>(e.fault()),
{
    let (input, transaction_id) = match take_bytes(input, STUN_TRANSACTION_ID_NUM_BYTES) {
        Ok(v) => v,
        Err(e) => return Err(e),
    };
    Ok((input, as_transaction_id(transaction_id).unwrap()))
}

/// Parses attributes until `input` is used up.
pub fn parse_attributes<'a>(input: &'a [u8]) -> (r: Result<(&'a [u8], Vec<StunAttribute<'a>>), StunParseError<&'a [u8]>>)
    ensures
        r is Ok <==> attributes_model(input@) is Ok,
        r matches Ok((rest, v)) ==> attributes_model(input@) == Ok::<Seq<AttributeModel>, ParseFault>(attributes_view(v@)) && rest@.len() == 0,
        r matches Err(e) ==> attributes_model(input@) == Err::<Seq<AttributeModel>, ParseFault>(e.fault()),
{
    let mut attributes: Vec<StunAttribute<'a>> = Vec::new();
    let mut rest = input;
    while rest.len() > 0
        invariant
            attributes_model(input@) == (match attributes_model(rest@) {
                Ok(tail) => Ok(attributes_view(attributes@) + tail),
                Err(f) => Err(f),
            }),
        decreases rest@.len(),
    {
        let (next, attribute) = match parse_attribute(rest) {
            Ok(v) => v,
            Err(e) => return Err(e),
        };
        proof {
            assert(attributes_model(rest@) == match attributes_model(next@) {
                Ok(tail) => Ok(seq![attribute@] + tail),
                Err(f) => Err::<Seq<AttributeModel>, ParseFault>(f),
            });
            let ghost old_view = attributes_view(attributes@);
            assert(attributes_view(attributes@.push(attribute)) =~= old_view + seq![attribute@]);
            assert(old_view + seq![attribute@] + seq![] =~= old_view + seq![attribute@]);
            match attributes_model(next@) {
                Ok(tail) => {
                    assert(old_view + (seq![attribute@] + tail) =~= old_view + seq![attribute@] + tail);
                },
                Err(_) => {},
            }
        }
        attributes.push(attribute);
        rest = next;
    }
    assert(attributes_view(attributes@) + seq![] =~= attributes_view(attributes@));
    Ok((rest, attributes))
}

/// Parses one attribute: type, length, value and the padding after it.
pub fn parse_attribute<'a>(input: &'a [u8]) -> (r: Result<(&'a [u8], StunAttribute<'a>), StunParseError<&'a [u8]>>)
    ensures
        r is Ok <==> attribute_model(input@) is Ok,
        r matches Ok((rest, a)) ==> attribute_model(input@) == Ok::<(AttributeModel, nat), ParseFault>((a@, attribute_record_len(a.attribute_length))) && rest@ == input@.skip(attribute_record_len(a.attribute_length) as int),
        r matches Err(e) ==> attribute_model(input@) == Err::<(AttributeModel, nat), ParseFault>(e.fault()),
{
    let (rest, attribute_type) = match read_be_u16(input) {
        Ok(v) => v,
        Err(e) => return Err(e),
    };
    let (rest, attribute_length) = match read_be_u16(rest) {
        Ok(v) => v,
        Err(e) => return Err(e),
    };
    assert(rest@ =~= input@.skip(4));
    let (rest, attribute_value) = match take_bytes(rest, attribute_length as usize) {
        Ok(v) => v,
        Err(e) => return Err(e),
    };
    // attributes end on 4-byte boundaries: a value whose length is not a
    // multiple of 4 is followed by padding
    let padding_length: usize = match attribute_length % 4 {
        1 => 3,
        2 => 2,
        3 => 1,
        _ => 0,
    };
    assert(padding_length == padding_len(attribute_length));
    assert(rest@ =~= input@.skip(4 + attribute_length));
    let (rest, _) = match take_bytes(rest, padding_length) {
        Ok(v) => v,
        Err(e) => return Err(e),
    };
    assert(attribute_value@ =~= input@.subrange(4, 4 + attribute_length));
    assert(rest@ =~= input@.skip(attribute_record_len(attribute_length) as int));
    Ok((rest, StunAttribute { attribute_type, attribute_length, attribute_value }))
}

} // verus!
