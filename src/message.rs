use vstd::prelude::*;
use crate::attribute::{AttributeModel, StunAttribute};
use crate::constants::{STUN_MAGIC_COOKIE, STUN_TRANSACTION_ID_NUM_BYTES};
use crate::message_types::{StunMessageClass, StunMessageMethod};

verus! {

/// A STUN message.
///
/// ```text
///  0                   1                   2                   3
///  0 1 2 3 4 5 6 7 8 9 0 1 2 3 4 5 6 7 8 9 0 1 2 3 4 5 6 7 8 9 0 1
/// +-+-+-+-+-+-+-+-+-+-+-+-+-+-+-+-+-+-+-+-+-+-+-+-+-+-+-+-+-+-+-+-+
/// |0 0|     STUN Message Type     |         Message Length        |
/// +-+-+-+-+-+-+-+-+-+-+-+-+-+-+-+-+-+-+-+-+-+-+-+-+-+-+-+-+-+-+-+-+
/// |                         Magic Cookie                          |
/// +-+-+-+-+-+-+-+-+-+-+-+-+-+-+-+-+-+-+-+-+-+-+-+-+-+-+-+-+-+-+-+-+
/// |                                                               |
/// |                     Transaction ID (96 bits)                  |
/// |                                                               |
/// +-+-+-+-+-+-+-+-+-+-+-+-+-+-+-+-+-+-+-+-+-+-+-+-+-+-+-+-+-+-+-+-+
/// ```
#[derive(Debug)]
pub struct StunMessage<'a> {
    /// message class, encoded into the message type
    pub message_class: StunMessageClass,
    /// message method, encoded into the message type
    pub message_method: StunMessageMethod,
    /// message length -- 16 bits: the byte count of the attributes section
    pub message_length: u16,
    /// magic cookie -- 32 bits
    pub magic_cookie: u32,
    /// transaction id -- 96 bits
    pub transaction_id: &'a [u8; STUN_TRANSACTION_ID_NUM_BYTES],
    /// zero or more attributes, in wire order
    pub attributes: Vec<StunAttribute<'a>>,
}

/// The mathematical value of a message.
pub struct MessageModel {
    pub class: StunMessageClass,
    pub method: StunMessageMethod,
    pub length: u16,
    pub magic_cookie: u32,
    pub transaction_id: Seq<u8>,
    pub attributes: Seq<AttributeModel>,
}

impl MessageModel {
    /// A message as the wire format can carry it: the fixed-size fields have
    /// their sizes, the cookie is the STUN one, and each attribute's value
    /// has the length that its length field states.
    pub open spec fn wf(self) -> bool {
        &&& self.transaction_id.len() == 12
        &&& self.magic_cookie == STUN_MAGIC_COOKIE
        &&& forall|i: int| 0 <= i < self.attributes.len() ==> (#[trigger] self.attributes[i]).wf()
    }
}

impl<'a> View for StunMessage<'a> {
    type V = MessageModel;

    open spec fn view(&self) -> MessageModel {
        MessageModel {
            class: self.message_class,
            method: self.message_method,
            length: self.message_length,
            magic_cookie: self.magic_cookie,
            transaction_id: self.transaction_id@,
            attributes: self.attributes@.map_values(|a: StunAttribute<'a>| a@),
        }
    }
}

} // verus!
