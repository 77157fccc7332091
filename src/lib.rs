//! STUN (Session Traversal Utilities for NAT) messages: the data model, a
//! decoder from bytes and an encoder to bytes, each proved against a model of
//! the wire format.
//!
//! A message is a 20-byte header (message type, length, magic cookie,
//! transaction id) followed by a sequence of type-length-value attributes,
//! each padded to a 4-byte boundary.
//!
//! - `wire`: big-endian fields, padding and the bit layout of the message type
//! - `parser`: the decoder, and `stun_message_model`, what it computes
//! - `serializer`: the encoder, and `stun_message_bytes`, what it writes
//! - `laws`: round trips and rejections, stated over those models

mod message_types;
pub use crate::message_types::{
    lemma_class_bits_round_trip, lemma_method_bits_round_trip, StunMessageClass,
    StunMessageMethod,
};

mod constants;
pub use crate::constants::{
    STUN_FIXED_HEADER_AFTER_LENGTH_NUM_BYTES, STUN_MAGIC_COOKIE, STUN_MESSAGE_CLASS_MASK,
    STUN_MESSAGE_CLASS_MASK_BIT_0, STUN_MESSAGE_CLASS_MASK_BIT_1, STUN_MESSAGE_CLASS_SHIFT_BIT_0,
    STUN_MESSAGE_CLASS_SHIFT_BIT_1, STUN_MESSAGE_METHOD_MASK, STUN_MESSAGE_METHOD_MASK_BIT_0_3,
    STUN_MESSAGE_METHOD_MASK_BIT_4_6, STUN_MESSAGE_METHOD_MASK_BIT_7_11,
    STUN_MESSAGE_METHOD_SHIFT_BIT_0_3, STUN_MESSAGE_METHOD_SHIFT_BIT_4_6,
    STUN_MESSAGE_METHOD_SHIFT_BIT_7_11, STUN_MESSAGE_TYPE_ZERO_MASK,
    STUN_TRANSACTION_ID_NUM_BYTES,
};

mod attribute;
pub use crate::attribute::{AttributeModel, StunAttribute};

mod attribute_types;
pub use crate::attribute_types::StunAttributeType;

mod wire;
pub use crate::wire::{
    be16, be16_bytes, be32, be32_bytes, class_field, class_of_type, lemma_be16_round_trip,
    lemma_be32_round_trip, lemma_type_field_round_trip, method_field, method_of_type,
    padding_len, zeros,
};

mod message;
pub use crate::message::{MessageModel, StunMessage};

mod errors;
pub use crate::errors::{ParseFault, StunParseError};

mod reader;

mod parser;
pub use crate::parser::{
    attribute_model, attribute_record_len, attributes_model, attributes_view,
    magic_cookie_model, message_length_model, message_type_model, message_type_value,
    parse_attribute, parse_attributes, parse_leading_zero, parse_magic_cookie,
    parse_message_class, parse_message_length, parse_message_method, parse_message_type,
    parse_stun_message, parse_transaction_id, stun_message_model, transaction_id_model,
};

mod serializer;
pub use crate::serializer::{
    attribute_bytes, attributes_bytes, attributes_length, lemma_attributes_bytes_append,
    lemma_attributes_bytes_push, message_type_of, serialize, serialize_attribute,
    serialize_into, serialize_message_class, serialize_message_method, serialize_message_type,
    serialize_with_computed_length, stun_message_bytes,
};

mod laws;
pub use crate::laws::{
    lemma_attribute_bytes_len, lemma_attribute_record_len, lemma_attribute_round_trip,
    lemma_attributes_round_trip, lemma_bad_cookie_rejected, lemma_computed_length_round_trip,
    lemma_header_round_trip, lemma_leading_bits_rejected, lemma_length_not_aligned_rejected,
    lemma_length_too_large_rejected, lemma_message_round_trip,
    lemma_truncated_attribute_in_message_rejected, lemma_truncated_attribute_rejected,
};
