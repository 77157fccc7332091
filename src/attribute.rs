use vstd::prelude::*;

verus! {

/// A STUN attribute, a type-length-value record.
///
/// ```text
///  0                   1                   2                   3
///  0 1 2 3 4 5 6 7 8 9 0 1 2 3 4 5 6 7 8 9 0 1 2 3 4 5 6 7 8 9 0 1
/// +-+-+-+-+-+-+-+-+-+-+-+-+-+-+-+-+-+-+-+-+-+-+-+-+-+-+-+-+-+-+-+-+
/// |         Type                  |            Length             |
/// +-+-+-+-+-+-+-+-+-+-+-+-+-+-+-+-+-+-+-+-+-+-+-+-+-+-+-+-+-+-+-+-+
/// |                         Value (variable)                ....
/// +-+-+-+-+-+-+-+-+-+-+-+-+-+-+-+-+-+-+-+-+-+-+-+-+-+-+-+-+-+-+-+-+
/// ```
#[derive(Debug)]
pub struct StunAttribute<'a> {
    /// attribute type -- 2 bytes
    pub attribute_type: u16,
    /// attribute length (of just the value part, without padding) -- 2 bytes
    pub attribute_length: u16,
    /// attribute value -- length bytes
    pub attribute_value: &'a [u8],
}

/// The mathematical value of an attribute.
pub struct AttributeModel {
    pub attribute_type: u16,
    pub attribute_length: u16,
    pub value: Seq<u8>,
}

impl AttributeModel {
    /// The value holds exactly the number of bytes that the length field states.
    pub open spec fn wf(self) -> bool {
        self.value.len() == self.attribute_length
    }
}

impl<'a> View for StunAttribute<'a> {
    type V = AttributeModel;

    open spec fn view(&self) -> AttributeModel {
        AttributeModel {
            attribute_type: self.attribute_type,
            attribute_length: self.attribute_length,
            value: self.attribute_value@,
        }
    }
}

} // verus!
