use vstd::prelude::*;

verus! {

/// Bitmask of the two bits of a message type that must be zero.
pub const STUN_MESSAGE_TYPE_ZERO_MASK: u16 = 0b1100_0000_0000_0000;

/// Bitmask of the class bits of a message type.
pub const STUN_MESSAGE_CLASS_MASK: u16 = 0b0000_0001_0001_0000;

/// Bitmasks of the two separated class bits of a message type.
pub const STUN_MESSAGE_CLASS_MASK_BIT_0: u16 = 0b0000_0000_0001_0000;

pub const STUN_MESSAGE_CLASS_MASK_BIT_1: u16 = 0b0000_0001_0000_0000;

/// Shifts that move the separated class bits into place.
pub const STUN_MESSAGE_CLASS_SHIFT_BIT_0: u16 = 4;

pub const STUN_MESSAGE_CLASS_SHIFT_BIT_1: u16 = 7;

/// Bitmask of the method bits of a message type.
pub const STUN_MESSAGE_METHOD_MASK: u16 = 0b0011_1110_1110_1111;

/// Bitmasks of the three separated runs of method bits of a message type.
pub const STUN_MESSAGE_METHOD_MASK_BIT_0_3: u16 = 0b0000_0000_0000_1111;

pub const STUN_MESSAGE_METHOD_MASK_BIT_4_6: u16 = 0b0000_0000_1110_0000;

pub const STUN_MESSAGE_METHOD_MASK_BIT_7_11: u16 = 0b0011_1110_0000_0000;

/// Shifts that move the separated runs of method bits into place.
pub const STUN_MESSAGE_METHOD_SHIFT_BIT_0_3: u16 = 0;

pub const STUN_MESSAGE_METHOD_SHIFT_BIT_4_6: u16 = 1;

pub const STUN_MESSAGE_METHOD_SHIFT_BIT_7_11: u16 = 2;

/// The magic cookie that every STUN message carries.
pub const STUN_MAGIC_COOKIE: u32 = 0x2112_A442;

/// Number of bytes in a STUN transaction id.
pub const STUN_TRANSACTION_ID_NUM_BYTES: usize = 12;

/// Number of bytes of the fixed header after the length field: the magic
/// cookie and the transaction id.
pub const STUN_FIXED_HEADER_AFTER_LENGTH_NUM_BYTES: usize = 16;

} // verus!
