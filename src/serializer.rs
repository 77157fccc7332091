use vstd::prelude::*;
use crate::attribute::{AttributeModel, StunAttribute};
use crate::constants::{
    STUN_MAGIC_COOKIE, STUN_MESSAGE_CLASS_SHIFT_BIT_0, STUN_MESSAGE_CLASS_SHIFT_BIT_1,
    STUN_MESSAGE_METHOD_SHIFT_BIT_0_3, STUN_MESSAGE_METHOD_SHIFT_BIT_4_6,
    STUN_MESSAGE_METHOD_SHIFT_BIT_7_11,
};
use crate::message::{MessageModel, StunMessage};
use crate::message_types::{StunMessageClass, StunMessageMethod};
use crate::parser::attributes_view;
use crate::wire::{
    be16_bytes, be32_bytes, class_field, method_field, padding_len, push_be16, push_be32,
    push_bytes, push_zeros, zeros,
};

verus! {

/// Declares cookie_factory's error type, which the bounded encoder returns.
#[verifier::external_type_specification]
#[verifier::external_body]
pub struct ExGenError(cookie_factory::GenError);

// ---------------------------------------------------------------------------
// The wire format, as functions from values to bytes
// ---------------------------------------------------------------------------

/// The 16-bit message type that carries a class and a method.
pub open spec fn message_type_of(class: StunMessageClass, method: StunMessageMethod) -> u16 {
    class_field(class.spec_bits()) | method_field(method.spec_bits())
}

/// The bytes of one attribute: type, length, value, then zero padding up
/// to a 4-byte boundary.
pub open spec fn attribute_bytes(a: AttributeModel) -> Seq<u8> {
    be16_bytes(a.attribute_type) + be16_bytes(a.attribute_length) + a.value + zeros(
        padding_len(a.attribute_length),
    )
}

/// The bytes of a sequence of attributes, in order.
pub open spec fn attributes_bytes(attributes: Seq<AttributeModel>) -> Seq<u8>
    decreases attributes.len(),
{
    if attributes.len() == 0 {
        seq![]
    } else {
        attribute_bytes(attributes[0]) + attributes_bytes(attributes.skip(1))
    }
}

/// The bytes of a message: message type, the length field as the message
/// gives it, the STUN magic cookie, the transaction id and the attributes.
pub open spec fn stun_message_bytes(m: MessageModel) -> Seq<u8> {
    be16_bytes(message_type_of(m.class, m.method)) + be16_bytes(m.length) + be32_bytes(
        STUN_MAGIC_COOKIE,
    ) + m.transaction_id + attributes_bytes(m.attributes)
}

/// Appending one attribute to a sequence appends its bytes.
pub proof fn lemma_attributes_bytes_push(attributes: Seq<AttributeModel>, a: AttributeModel)
    ensures
        attributes_bytes(attributes.push(a)) == attributes_bytes(attributes) + attribute_bytes(a),
    decreases attributes.len(),
{
    if attributes.len() == 0 {
        assert(attributes.push(a).skip(1) =~= seq![]);
        assert(attributes_bytes(attributes.push(a)) =~= attribute_bytes(a) + attributes_bytes(seq![]));
        assert(attribute_bytes(a) + seq![] =~= attribute_bytes(a));
        assert(seq![] + attribute_bytes(a) =~= attribute_bytes(a));
    } else {
        lemma_attributes_bytes_push(attributes.skip(1), a);
        assert(attributes.push(a).skip(1) =~= attributes.skip(1).push(a));
        assert(attributes.push(a)[0] == attributes[0]);
        assert(attribute_bytes(attributes[0]) + (attributes_bytes(attributes.skip(1)) + attribute_bytes(a))
            =~= attribute_bytes(attributes[0]) + attributes_bytes(attributes.skip(1)) + attribute_bytes(a));
    }
}

/// The bytes of two sequences of attributes, one after the other, are the
/// bytes of the first followed by those of the second.
pub proof fn lemma_attributes_bytes_append(first: Seq<AttributeModel>, second: Seq<AttributeModel>)
    ensures
        attributes_bytes(first + second) == attributes_bytes(first) + attributes_bytes(second),
    decreases first.len(),
{
    if first.len() == 0 {
        assert(first + second =~= second);
        assert(seq![] + attributes_bytes(second) =~= attributes_bytes(second));
    } else {
        lemma_attributes_bytes_append(first.skip(1), second);
        assert((first + second).skip(1) =~= first.skip(1) + second);
        assert((first + second)[0] == first[0]);
        assert(attribute_bytes(first[0]) + (attributes_bytes(first.skip(1)) + attributes_bytes(second))
            =~= attribute_bytes(first[0]) + attributes_bytes(first.skip(1)) + attributes_bytes(second));
    }
}

// ---------------------------------------------------------------------------
// The encoder
// ---------------------------------------------------------------------------

/// Relies on cookie_factory::gen with cookie_factory::combinator::slice over
/// a `&mut [u8]`: the bytes are copied to the front of `output`; when they
/// all fit the result is their count, else an error (after a partial copy).
#[verifier::external_body]
fn write_into(bytes: &[u8], output: &mut [u8]) -> (r: Result<u64, cookie_factory::GenError>)
    ensures
        final(output)@.len() == old(output)@.len(),
        r is Ok <==> bytes@.len() <= old(output)@.len(),
        r matches Ok(n) ==> n == bytes@.len() && final(output)@ == bytes@ + old(output)@.skip(bytes@.len() as int),
{
    cookie_factory::gen(cookie_factory::combinator::slice(bytes), output).map(|res| res.1)
}

/// Serializes `message` into `output`, which is not grown: fails when the
/// message does not fit. On success returns the number of bytes written,
/// which are the message's bytes; the rest of `output` is left as it was.
pub fn serialize_into(message: &StunMessage, output: &mut [u8]) -> (r: Result<u64, cookie_factory::GenError>)
    ensures
        final(output)@.len() == old(output)@.len(),
        r is Ok <==> stun_message_bytes(message@).len() <= old(output)@.len(),
        r matches Ok(n) ==> n == stun_message_bytes(message@).len() && final(output)@ == stun_message_bytes(message@) + old(output)@.skip(n as int),
{
    let mut bytes: Vec<u8> = Vec::new();
    serialize_helper(message, message.message_length, &mut bytes);
    assert(MessageModel { length: message.message_length, ..message@ } == message@);
    assert(bytes@ =~= stun_message_bytes(message@));
    write_into(bytes.as_slice(), output)
}

/// Serializes `message` into a new vector.
pub fn serialize(message: &StunMessage) -> (r: Result<Vec<u8>, cookie_factory::GenError>)
    ensures
        r matches Ok(v) && v@ == stun_message_bytes(message@),
{
    let mut output: Vec<u8> = Vec::new();
    serialize_helper(message, message.message_length, &mut output);
    assert(MessageModel { length: message.message_length, ..message@ } == message@);
    assert(output@ =~= stun_message_bytes(message@));
    Ok(output)
}

/// Serializes `message` with a length field computed from its attributes
/// instead of the one it carries. Returns `None` when the attributes take
/// more bytes than the 16-bit field can state.
pub fn serialize_with_computed_length(message: &StunMessage) -> (r: Option<Vec<u8>>)
    ensures
        r is Some <==> attributes_bytes(message@.attributes).len() <= 0xFFFF,
        r matches Some(v) ==> v@ == stun_message_bytes(MessageModel { length: attributes_bytes(message@.attributes).len() as u16, ..message@ }),
{
    match attributes_length(&message.attributes) {
        None => None,
        Some(length) => {
            let mut output: Vec<u8> = Vec::new();
            serialize_helper(message, length, &mut output);
            assert(output@ =~= stun_message_bytes(MessageModel { length, ..message@ }));
            Some(output)
        },
    }
}

/// The number of bytes that `attributes` take on the wire, padding
/// included, or `None` when that does not fit in a 16-bit length field.
pub fn attributes_length(attributes: &Vec<StunAttribute>) -> (r: Option<u16>)
    ensures
        r is Some <==> attributes_bytes(attributes_view(attributes@)).len() <= 0xFFFF,
        r matches Some(n) ==> n == attributes_bytes(attributes_view(attributes@)).len(),
{
    let mut total: usize = 0;
    let mut i: usize = 0;
    while i < attributes.len()
        invariant
            i <= attributes@.len(),
            total == attributes_bytes(attributes_view(attributes@.take(i as int))).len(),
            total <= 0xFFFF,
        decreases attributes@.len() - i,
    {
        let a = &attributes[i];
        let padding_length: usize = match a.attribute_length % 4 {
            1 => 3,
            2 => 2,
            3 => 1,
            _ => 0,
        };
        proof {
            let prefix = attributes_view(attributes@.take(i as int));
            lemma_attributes_bytes_push(prefix, a@);
            assert(attributes_view(attributes@.take(i + 1)) =~= prefix.push(a@));
            lemma_attributes_bytes_append(attributes_view(attributes@.take(i + 1)), attributes_view(attributes@.skip(i + 1)));
            assert(attributes_view(attributes@.take(i + 1)) + attributes_view(attributes@.skip(i + 1)) =~= attributes_view(attributes@));
        }
        if a.attribute_value.len() > 0xFFFF {
            return None;
        }
        let record = 4 + a.attribute_value.len() + padding_length;
        if total + record > 0xFFFF {
            return None;
        }
        total = total + record;
        i = i + 1;
    }
    assert(attributes@.take(i as int) =~= attributes@);
    Some(total as u16)
}

/// Appends the bytes of `message` to `out`, with `length` in the length
/// field.
fn serialize_helper(message: &StunMessage, length: u16, out: &mut Vec<u8>)
    ensures
        final(out)@ == old(out)@ + stun_message_bytes(MessageModel { length, ..message@ }),
{
    let ghost start = out@;
    serialize_message_type(message, out);
    push_be16(out, length);
    push_be32(out, STUN_MAGIC_COOKIE);
    push_bytes(out, message.transaction_id.as_slice());
    let ghost header = out@;
    let mut i: usize = 0;
    while i < message.attributes.len()
        invariant
            i <= message.attributes@.len(),
            out@ == header + attributes_bytes(attributes_view(message.attributes@.take(i as int))),
        decreases message.attributes@.len() - i,
    {
        proof {
            let prefix = attributes_view(message.attributes@.take(i as int));
            lemma_attributes_bytes_push(prefix, message.attributes@[i as int]@);
            assert(attributes_view(message.attributes@.take(i + 1)) =~= prefix.push(message.attributes@[i as int]@));
        }
        serialize_attribute(&message.attributes[i], out);
        i = i + 1;
    }
    assert(message.attributes@.take(i as int) =~= message.attributes@);
    assert(out@ =~= start + stun_message_bytes(MessageModel { length, ..message@ }));
}

/// Appends the 16-bit message type that carries the message's class and
/// method.
pub fn serialize_message_type(message: &StunMessage, out: &mut Vec<u8>)
    ensures
        final(out)@ == old(out)@ + be16_bytes(message_type_of(message.message_class, message.message_method)),
{
    let message_type = serialize_message_class(message.message_class) | serialize_message_method(
        message.message_method,
    );
    push_be16(out, message_type);
}

/// The message type bits that carry a class: its bit 0 goes to bit 4 and
/// its bit 1 to bit 8.
pub fn serialize_message_class(message_class: StunMessageClass) -> (r: u16)
    ensures
        r == class_field(message_class.spec_bits()),
{
    let message_class = message_class.to_bits();
    let r = ((message_class & 0x0001) << STUN_MESSAGE_CLASS_SHIFT_BIT_0) | ((message_class & 0x0002)
        << STUN_MESSAGE_CLASS_SHIFT_BIT_1);
    r
}

/// The message type bits that carry a method: its bits 0-3 stay, bits 4-6
/// go to 5-7 and bits 7-11 go to 9-13.
pub fn serialize_message_method(message_method: StunMessageMethod) -> (r: u16)
    ensures
        r == method_field(message_method.spec_bits()),
{
    let message_method = message_method.to_bits();
    let r = ((message_method & 0x000F) << STUN_MESSAGE_METHOD_SHIFT_BIT_0_3) | ((message_method
        & 0x0070) << STUN_MESSAGE_METHOD_SHIFT_BIT_4_6) | ((message_method & 0x0F80)
        << STUN_MESSAGE_METHOD_SHIFT_BIT_7_11);
    assert(r == method_field(message_method)) by (bit_vector)
        requires
            r == ((message_method & 0x000F) << 0u16) | ((message_method & 0x0070) << 1u16) | ((
            message_method & 0x0F80) << 2u16),
    ;
    r
}

/// Appends the bytes of one attribute, padding included.
pub fn serialize_attribute(a: &StunAttribute, out: &mut Vec<u8>)
    ensures
        final(out)@ == old(out)@ + attribute_bytes(a@),
{
    let ghost start = out@;
    push_be16(out, a.attribute_type);
    push_be16(out, a.attribute_length);
    push_bytes(out, a.attribute_value);
    let padding_length: usize = match a.attribute_length % 4 {
        1 => 3,
        2 => 2,
        3 => 1,
        _ => 0,
    };
    push_zeros(out, padding_length);
    assert(out@ =~= start + attribute_bytes(a@));
}

} // verus!
