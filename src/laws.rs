use vstd::prelude::*;
use crate::attribute::AttributeModel;
use crate::constants::STUN_MAGIC_COOKIE;
use crate::errors::ParseFault;
use crate::message::MessageModel;
use crate::message_types::{
    lemma_class_bits_round_trip, lemma_method_bits_round_trip, StunMessageClass,
    StunMessageMethod,
};
use crate::parser::{
    attribute_model, attribute_record_len, attributes_model, magic_cookie_model,
    message_length_model, message_type_model, stun_message_model, transaction_id_model,
};
use crate::serializer::{attribute_bytes, attributes_bytes, message_type_of, stun_message_bytes};
use crate::wire::{
    be16, be16_bytes, be32, be32_bytes, lemma_be16_round_trip, lemma_be32_round_trip,
    lemma_type_field_round_trip, padding_len, zeros,
};

verus! {

/// An attribute takes a whole number of 4-byte words: its 4-byte header and
/// its value rounded up to a multiple of 4.
pub proof fn lemma_attribute_record_len(len: u16)
    ensures
        len + padding_len(len) == 4 * ((len + 3) / 4),
        attribute_record_len(len) % 4 == 0,
{
}

/// The bytes of a well-formed attribute are as many as its record takes.
pub proof fn lemma_attribute_bytes_len(a: AttributeModel)
    requires
        a.wf(),
    ensures
        attribute_bytes(a).len() == attribute_record_len(a.attribute_length),
{
    lemma_attribute_record_len(a.attribute_length);
}

/// Decoding the bytes of a well-formed attribute, whatever follows them,
/// gives back its type, length and value, and consumes exactly its header
/// and its value rounded up to a multiple of 4 bytes.
pub proof fn lemma_attribute_round_trip(a: AttributeModel, rest: Seq<u8>)
    requires
        a.wf(),
    ensures
        attribute_model(attribute_bytes(a) + rest) == Ok::<(AttributeModel, nat), ParseFault>((a, attribute_record_len(a.attribute_length))),
        attribute_record_len(a.attribute_length) == 4 + 4 * ((a.attribute_length + 3) / 4),
{
    let l = a.attribute_length;
    let s = attribute_bytes(a) + rest;
    let tail = be16_bytes(l) + a.value + zeros(padding_len(l)) + rest;
    assert(s =~= be16_bytes(a.attribute_type) + tail);
    lemma_be16_round_trip(a.attribute_type, tail);
    assert(s.skip(2) =~= be16_bytes(l) + (a.value + zeros(padding_len(l)) + rest));
    lemma_be16_round_trip(l, a.value + zeros(padding_len(l)) + rest);
    lemma_attribute_bytes_len(a);
    assert(s.subrange(4, 4 + l) =~= a.value);
    let got = AttributeModel { attribute_type: be16(s), attribute_length: be16(s.skip(2)), value: s.subrange(4, 4 + l) };
    assert(got == a);
}

/// Decoding the bytes of a sequence of well-formed attributes gives back
/// the sequence.
pub proof fn lemma_attributes_round_trip(attributes: Seq<AttributeModel>)
    requires
        forall|i: int| 0 <= i < attributes.len() ==> (#[trigger] attributes[i]).wf(),
    ensures
        attributes_model(attributes_bytes(attributes)) == Ok::<Seq<AttributeModel>, ParseFault>(attributes),
        attributes_bytes(attributes).len() % 4 == 0,
    decreases attributes.len(),
{
    if attributes.len() == 0 {
        assert(attributes =~= seq![]);
    } else {
        let a = attributes[0];
        let tail = attributes.skip(1);
        assert(a.wf());
        assert forall|i: int| 0 <= i < tail.len() implies (#[trigger] tail[i]).wf() by {
            assert(tail[i] == attributes[i + 1]);
        }
        lemma_attributes_round_trip(tail);
        lemma_attribute_round_trip(a, attributes_bytes(tail));
        lemma_attribute_bytes_len(a);
        lemma_attribute_record_len(a.attribute_length);
        let s = attributes_bytes(attributes);
        assert(s.skip(attribute_record_len(a.attribute_length) as int) =~= attributes_bytes(tail));
        assert(seq![a] + tail =~= attributes);
    }
}

/// Decoding the bytes of a well-formed message whose length field gives the
/// size of its attributes section gives back the message and consumes its
/// bytes, whatever follows them.
pub proof fn lemma_message_round_trip(m: MessageModel, rest: Seq<u8>)
    requires
        m.wf(),
        m.length == attributes_bytes(m.attributes).len(),
    ensures
        stun_message_model(stun_message_bytes(m) + rest) == Ok::<(MessageModel, nat), ParseFault>((m, stun_message_bytes(m).len())),
        stun_message_bytes(m).len() == 20 + m.length,
{
    let s = stun_message_bytes(m) + rest;
    let body = attributes_bytes(m.attributes);
    let t = message_type_of(m.class, m.method);
    lemma_class_bits_round_trip(m.class);
    lemma_method_bits_round_trip(m.method);
    lemma_type_field_round_trip(m.class.spec_bits(), m.method.spec_bits());
    lemma_attributes_round_trip(m.attributes);
    let after_type = be16_bytes(m.length) + be32_bytes(STUN_MAGIC_COOKIE) + m.transaction_id + body + rest;
    assert(s =~= be16_bytes(t) + after_type);
    lemma_be16_round_trip(t, after_type);
    assert(message_type_model(s) == Ok::<(StunMessageClass, StunMessageMethod), ParseFault>((m.class, m.method)));
    let after_length = be32_bytes(STUN_MAGIC_COOKIE) + m.transaction_id + body + rest;
    assert(s.skip(2) =~= be16_bytes(m.length) + after_length);
    lemma_be16_round_trip(m.length, after_length);
    assert(message_length_model(s.skip(2)) == Ok::<u16, ParseFault>(m.length));
    assert(s.skip(4) =~= be32_bytes(STUN_MAGIC_COOKIE) + (m.transaction_id + body + rest));
    lemma_be32_round_trip(STUN_MAGIC_COOKIE, m.transaction_id + body + rest);
    assert(s.skip(8).take(12) =~= m.transaction_id);
    assert(s.subrange(20, 20 + m.length) =~= body);
}

/// A well-formed message encoded with the length field computed from its
/// attributes decodes back to itself, with that length, whatever follows.
pub proof fn lemma_computed_length_round_trip(m: MessageModel, rest: Seq<u8>)
    requires
        m.wf(),
        attributes_bytes(m.attributes).len() <= 0xFFFF,
    ensures
        ({
            let sized = MessageModel { length: attributes_bytes(m.attributes).len() as u16, ..m };
            stun_message_model(stun_message_bytes(sized) + rest) == Ok::<(MessageModel, nat), ParseFault>((sized, (20 + sized.length) as nat))
        }),
{
    let sized = MessageModel { length: attributes_bytes(m.attributes).len() as u16, ..m };
    lemma_message_round_trip(sized, rest);
}

/// A message with no attributes and a zero length field, whatever its
/// class, method and transaction id, decodes from its own bytes to itself.
pub proof fn lemma_header_round_trip(class: StunMessageClass, method: StunMessageMethod, transaction_id: Seq<u8>)
    requires
        transaction_id.len() == 12,
    ensures
        ({
            let m = MessageModel {
                class,
                method,
                length: 0,
                magic_cookie: STUN_MAGIC_COOKIE,
                transaction_id,
                attributes: seq![],
            };
            stun_message_model(stun_message_bytes(m)) == Ok::<(MessageModel, nat), ParseFault>((m, 20))
        }),
{
    let m = MessageModel {
        class,
        method,
        length: 0,
        magic_cookie: STUN_MAGIC_COOKIE,
        transaction_id,
        attributes: seq![],
    };
    lemma_message_round_trip(m, seq![]);
    assert(stun_message_bytes(m) + seq![] =~= stun_message_bytes(m));
}

/// A message type with either of its two leading bits set is rejected with
/// the leading-bits error, whatever the other fields hold.
pub proof fn lemma_leading_bits_rejected(input: Seq<u8>)
    requires
        input.len() >= 2,
        be16(input) & 0xC000 != 0,
    ensures
        stun_message_model(input) == Err::<(MessageModel, nat), ParseFault>(ParseFault::FirstTwoBits(be16(input))),
{
}

/// After a valid message type, a length field that is not a multiple of 4
/// is rejected with the alignment error.
pub proof fn lemma_length_not_aligned_rejected(input: Seq<u8>)
    requires
        input.len() >= 4,
        message_type_model(input) is Ok,
        be16(input.skip(2)) % 4 != 0,
    ensures
        stun_message_model(input) == Err::<(MessageModel, nat), ParseFault>(ParseFault::LengthNotAligned(be16(input.skip(2)))),
{
}

/// After a valid message type, an aligned length field that, with the 16
/// bytes of cookie and transaction id, exceeds the input after it is
/// rejected with the too-large error.
pub proof fn lemma_length_too_large_rejected(input: Seq<u8>)
    requires
        input.len() >= 4,
        message_type_model(input) is Ok,
        be16(input.skip(2)) % 4 == 0,
        be16(input.skip(2)) + 16 > input.len() - 4,
    ensures
        stun_message_model(input) == Err::<(MessageModel, nat), ParseFault>(ParseFault::LengthTooLarge(be16(input.skip(2)))),
{
}

/// After a valid message type and length field, a cookie other than the
/// STUN one is rejected with the cookie error, whatever the transaction id
/// and the attributes hold.
pub proof fn lemma_bad_cookie_rejected(input: Seq<u8>)
    requires
        input.len() >= 8,
        message_type_model(input) is Ok,
        message_length_model(input.skip(2)) is Ok,
        be32(input.skip(4)) != STUN_MAGIC_COOKIE,
    ensures
        stun_message_model(input) == Err::<(MessageModel, nat), ParseFault>(ParseFault::MagicCookie(be32(input.skip(4)))),
{
}

/// Every proper prefix of a well-formed attribute's bytes, the empty one
/// included, fails to decode as an attribute with the short-input error.
pub proof fn lemma_truncated_attribute_rejected(a: AttributeModel, k: int)
    requires
        a.wf(),
        0 <= k < attribute_bytes(a).len(),
    ensures
        attribute_model(attribute_bytes(a).take(k)) is Err,
        attribute_model(attribute_bytes(a).take(k)) matches Err(ParseFault::ShortInput(_)),
        k > 0 ==> attributes_model(attribute_bytes(a).take(k)) matches Err(ParseFault::ShortInput(_)),
{
    let s = attribute_bytes(a).take(k);
    let l = a.attribute_length;
    lemma_attribute_bytes_len(a);
    if k >= 4 {
        let full = attribute_bytes(a);
        assert(full.skip(2) =~= be16_bytes(l) + (a.value + zeros(padding_len(l))));
        lemma_be16_round_trip(l, a.value + zeros(padding_len(l)));
        assert(s.skip(2).take(2) =~= full.skip(2).take(2));
        assert(be16(s.skip(2)) == be16(full.skip(2)));
    }
}

/// A message whose header is valid but whose attributes section, as its
/// length field bounds it, holds only part of an attribute fails to decode
/// with the short-input error.
pub proof fn lemma_truncated_attribute_in_message_rejected(input: Seq<u8>, a: AttributeModel, length: u16)
    requires
        a.wf(),
        0 < length < attribute_bytes(a).len(),
        message_type_model(input) is Ok,
        message_length_model(input.skip(2)) == Ok::<u16, ParseFault>(length),
        be32(input.skip(4)) == STUN_MAGIC_COOKIE,
        input.subrange(20, 20 + length) == attribute_bytes(a).take(length as int),
    ensures
        stun_message_model(input) matches Err(ParseFault::ShortInput(_)),
{
    lemma_truncated_attribute_rejected(a, length as int);
    assert(input.len() >= 20 + length);
    assert(magic_cookie_model(input.skip(4)) == Ok::<u32, ParseFault>(STUN_MAGIC_COOKIE));
    assert(transaction_id_model(input.skip(8)) is Ok);
}

} // verus!
