//! Messages on the wire: a 20-byte header followed by one attribute.
//!
//! | bytes  | field                                   |
//! |--------|-----------------------------------------|
//! | 0..2   | message type (class and method)         |
//! | 2..4   | message length                          |
//! | 4..8   | magic cookie, `0x2112A442`              |
//! | 8..20  | transaction id                          |
//! | 20..22 | attribute type                          |
//! | 22..24 | attribute length                        |
//! | 24..   | attribute value, up to the last byte    |

use crate::error::FormatError;
use crate::message_type::{
    decode_type, encode_type, lemma_decode_type_inverts_encode_type,
    lemma_encode_type_inverts_decode_type, StunMessageType,
};
use crate::wire::{
    be_bytes_u16, be_bytes_u32, be_u16, lemma_be_bytes_of_u16, lemma_be_u16_of_bytes,
    u16_from_be_bytes, u16_to_be_bytes, u32_to_be_bytes,
};
use vstd::prelude::*;
use vstd::slice::slice_subrange;
use vstd::slice::slice_to_vec;

verus! {

/// The constant that marks a datagram as a message of this protocol.
pub const MAGIC_COOKIE: u32 = 0x2112A442;

/// The number of bytes in a header.
pub const HEADER_LENGTH: usize = 20;

/// The number of bytes in a header and the type and length of an attribute:
/// the least a datagram must hold to be decoded.
pub const MINIMUM_LENGTH: usize = 24;

/// The header of a message.
#[derive(Debug, Clone, Copy, PartialEq, Eq)]
pub struct StunMessageHeader {
    pub message_type: StunMessageType,
    /// The byte count of the attribute section, as the sender declared it.
    pub message_length: [u8; 2],
    /// `0x2112A442`, big-endian, in every message that decodes.
    pub magic_cookie: [u8; 4],
    /// Chosen by the sender of a request and echoed in the response.
    pub transaction_id: [u8; 12],
}

/// The one attribute of a message.
#[derive(Debug, PartialEq, Eq)]
pub struct StunMessageAttribute {
    pub attribute_type: [u8; 2],
    /// The byte count of the value, as the sender declared it.
    pub length: [u8; 2],
    /// The bytes after the attribute's type and length, up to the last one.
    pub value: Vec<u8>,
}

/// A message: a header and one attribute.
#[derive(Debug, PartialEq, Eq)]
pub struct StunMessage {
    pub header: StunMessageHeader,
    pub attribute: StunMessageAttribute,
}

/// A header as a mathematical value.
pub struct HeaderView {
    pub message_type: StunMessageType,
    pub message_length: Seq<u8>,
    pub magic_cookie: Seq<u8>,
    pub transaction_id: Seq<u8>,
}

/// An attribute as a mathematical value.
pub struct AttributeView {
    pub attribute_type: Seq<u8>,
    pub length: Seq<u8>,
    pub value: Seq<u8>,
}

/// A message as a mathematical value.
pub struct MessageView {
    pub header: HeaderView,
    pub attribute: AttributeView,
}

impl View for StunMessageHeader {
    type V = HeaderView;

    open spec fn view(&self) -> HeaderView {
        HeaderView {
            message_type: self.message_type,
            message_length: self.message_length@,
            magic_cookie: self.magic_cookie@,
            transaction_id: self.transaction_id@,
        }
    }
}

impl View for StunMessageAttribute {
    type V = AttributeView;

    open spec fn view(&self) -> AttributeView {
        AttributeView {
            attribute_type: self.attribute_type@,
            length: self.length@,
            value: self.value@,
        }
    }
}

impl View for StunMessage {
    type V = MessageView;

    open spec fn view(&self) -> MessageView {
        MessageView { header: self.header@, attribute: self.attribute@ }
    }
}

impl Clone for StunMessageAttribute {
    fn clone(&self) -> (copy: StunMessageAttribute)
        ensures
            copy@ == self@,
    {
        StunMessageAttribute {
            attribute_type: self.attribute_type,
            length: self.length,
            value: self.value.clone(),
        }
    }
}

impl Clone for StunMessage {
    fn clone(&self) -> (copy: StunMessage)
        ensures
            copy@ == self@,
    {
        StunMessage { header: self.header, attribute: self.attribute.clone() }
    }
}

/// The four bytes of the magic cookie as they stand on the wire.
pub open spec fn magic_cookie_bytes() -> Seq<u8> {
    be_bytes_u32(MAGIC_COOKIE)
}

impl MessageView {
    /// Every field has the width it has on the wire.
    pub open spec fn sized(self) -> bool {
        &&& self.header.message_length.len() == 2
        &&& self.header.magic_cookie.len() == 4
        &&& self.header.transaction_id.len() == 12
        &&& self.attribute.attribute_type.len() == 2
        &&& self.attribute.length.len() == 2
    }

    /// Every field has its width and the magic cookie is the constant: the
    /// messages that a decoder accepts.
    pub open spec fn well_formed(self) -> bool {
        &&& self.sized()
        &&& self.header.magic_cookie == magic_cookie_bytes()
    }
}

/// The bytes of a message on the wire: its fields one after the other.
pub open spec fn encode(message: MessageView) -> Seq<u8> {
    be_bytes_u16(encode_type(message.header.message_type)) + message.header.message_length
        + message.header.magic_cookie + message.header.transaction_id
        + message.attribute.attribute_type + message.attribute.length + message.attribute.value
}

/// What a buffer decodes to.
///
/// The checks come in this order: the header is complete, the method code is
/// known, the magic cookie is the constant, the attribute's type and length
/// are complete. The value of the attribute is everything that follows; the
/// two declared lengths are handed on as they are and held against nothing.
pub open spec fn decode(buffer: Seq<u8>) -> Result<MessageView, FormatError> {
    if buffer.len() < HEADER_LENGTH {
        Err(FormatError::TruncatedHeader)
    } else {
        match decode_type(be_u16(buffer.subrange(0, 2))) {
            Err(error) => Err(error),
            Ok(message_type) => {
                if buffer.subrange(4, 8) != magic_cookie_bytes() {
                    Err(FormatError::MagicCookie)
                } else if buffer.len() < MINIMUM_LENGTH {
                    Err(FormatError::TruncatedAttribute)
                } else {
                    Ok(
                        MessageView {
                            header: HeaderView {
                                message_type,
                                message_length: buffer.subrange(2, 4),
                                magic_cookie: buffer.subrange(4, 8),
                                transaction_id: buffer.subrange(8, 20),
                            },
                            attribute: AttributeView {
                                attribute_type: buffer.subrange(20, 22),
                                length: buffer.subrange(22, 24),
                                value: buffer.subrange(24, buffer.len() as int),
                            },
                        },
                    )
                }
            },
        }
    }
}

/// Appends `bytes` to `out`.
fn append(out: &mut Vec<u8>, bytes: &[u8])
    ensures
        final(out)@ == old(out)@ + bytes@,
{
    let mut i: usize = 0;
    while i < bytes.len()
        invariant
            i <= bytes.len(),
            out@ == old(out)@ + bytes@.subrange(0, i as int),
        decreases bytes.len() - i,
    {
        out.push(bytes[i]);
        i = i + 1;
    }
}

impl StunMessage {
    /// Whether the magic cookie is the constant.
    pub open spec fn well_formed(&self) -> bool {
        self@.well_formed()
    }

    /// Decodes the message that a buffer holds, or names the first field
    /// that keeps it from being decoded: a header of less than 20 bytes, a
    /// method code that is not known, a magic cookie that is not the
    /// constant, an attribute of less than 4 bytes. All that follows the
    /// attribute's type and length is its value.
    pub fn parse(buffer: &[u8]) -> (result: Result<StunMessage, FormatError>)
        ensures
            result matches Ok(message) ==> decode(buffer@) == Ok::<MessageView, FormatError>(
                message@,
            ),
            result matches Err(error) ==> decode(buffer@) == Err::<MessageView, FormatError>(error),
    {
        if buffer.len() < HEADER_LENGTH {
            return Err(FormatError::TruncatedHeader);
        }
        let type_bytes: [u8; 2] = [buffer[0], buffer[1]];
        assert(type_bytes@ =~= buffer@.subrange(0, 2));
        let message_type: StunMessageType = match StunMessageType::from_field(
            u16_from_be_bytes(type_bytes),
        ) {
            Ok(message_type) => message_type,
            Err(error) => {
                return Err(error);
            },
        };
        let message_length: [u8; 2] = [buffer[2], buffer[3]];
        let magic_cookie: [u8; 4] = [buffer[4], buffer[5], buffer[6], buffer[7]];
        assert(message_length@ =~= buffer@.subrange(2, 4));
        assert(magic_cookie@ =~= buffer@.subrange(4, 8));
        let expected: [u8; 4] = u32_to_be_bytes(MAGIC_COOKIE);
        if magic_cookie[0] != expected[0] || magic_cookie[1] != expected[1] || magic_cookie[2]
            != expected[2] || magic_cookie[3] != expected[3] {
            return Err(FormatError::MagicCookie);
        }
        let transaction_id: [u8; 12] = [
            buffer[8],
            buffer[9],
            buffer[10],
            buffer[11],
            buffer[12],
            buffer[13],
            buffer[14],
            buffer[15],
            buffer[16],
            buffer[17],
            buffer[18],
            buffer[19],
        ];
        assert(transaction_id@ =~= buffer@.subrange(8, 20));
        if buffer.len() < MINIMUM_LENGTH {
            return Err(FormatError::TruncatedAttribute);
        }
        let attribute_type: [u8; 2] = [buffer[20], buffer[21]];
        let length: [u8; 2] = [buffer[22], buffer[23]];
        assert(attribute_type@ =~= buffer@.subrange(20, 22));
        assert(length@ =~= buffer@.subrange(22, 24));
        let value: Vec<u8> = slice_to_vec(slice_subrange(buffer, MINIMUM_LENGTH, buffer.len()));
        Ok(
            StunMessage {
                header: StunMessageHeader {
                    message_type,
                    message_length,
                    magic_cookie,
                    transaction_id,
                },
                attribute: StunMessageAttribute { attribute_type, length, value },
            },
        )
    }

    /// Encodes the message: its fields one after the other. The declared
    /// lengths and the magic cookie are written as the message holds them,
    /// so a well-formed message decodes from its bytes again.
    pub fn build(&self) -> (bytes: Vec<u8>)
        ensures
            bytes@ == encode(self@),
            bytes@.len() == MINIMUM_LENGTH + self.attribute.value@.len(),
            self.well_formed() ==> decode(bytes@) == Ok::<MessageView, FormatError>(self@),
    {
        proof {
            if self.well_formed() {
                lemma_decode_inverts_encode(self@);
            }
        }
        let message_type: [u8; 2] = u16_to_be_bytes(self.header.message_type.to_field());
        let mut message: Vec<u8> = Vec::new();
        append(&mut message, message_type.as_slice());
        append(&mut message, self.header.message_length.as_slice());
        append(&mut message, self.header.magic_cookie.as_slice());
        append(&mut message, self.header.transaction_id.as_slice());
        append(&mut message, self.attribute.attribute_type.as_slice());
        append(&mut message, self.attribute.length.as_slice());
        append(&mut message, self.attribute.value.as_slice());
        message
    }
}

/// Decoding undoes encoding: a well-formed message comes back from its
/// bytes, every field as it was.
pub proof fn lemma_decode_inverts_encode(message: MessageView)
    requires
        message.well_formed(),
    ensures
        decode(encode(message)) == Ok::<MessageView, FormatError>(message),
{
    let bytes = encode(message);
    let field = encode_type(message.header.message_type);
    lemma_be_u16_of_bytes(field);
    lemma_decode_type_inverts_encode_type(message.header.message_type);
    assert(bytes.subrange(0, 2) =~= be_bytes_u16(field));
    assert(bytes.subrange(2, 4) =~= message.header.message_length);
    assert(bytes.subrange(4, 8) =~= message.header.magic_cookie);
    assert(bytes.subrange(8, 20) =~= message.header.transaction_id);
    assert(bytes.subrange(20, 22) =~= message.attribute.attribute_type);
    assert(bytes.subrange(22, 24) =~= message.attribute.length);
    assert(bytes.subrange(24, bytes.len() as int) =~= message.attribute.value);
}

/// A buffer whose magic cookie is not the constant does not decode. Where
/// its header is complete and its type field decodes, the error names the
/// magic cookie.
pub proof fn lemma_wrong_magic_cookie_is_rejected(buffer: Seq<u8>)
    requires
        buffer.subrange(4, 8) != magic_cookie_bytes(),
    ensures
        decode(buffer) is Err,
        buffer.len() >= HEADER_LENGTH && decode_type(be_u16(buffer.subrange(0, 2))) is Ok ==> decode(
            buffer,
        ) == Err::<MessageView, FormatError>(FormatError::MagicCookie),
{
}

/// Encoding undoes decoding: a buffer that decodes is the encoding of what
/// it decodes to, and that message is well formed.
pub proof fn lemma_encode_inverts_decode(buffer: Seq<u8>)
    ensures
        decode(buffer) matches Ok(message) ==> message.well_formed() && encode(message) == buffer,
{
    if let Ok(message) = decode(buffer) {
        let field = be_u16(buffer.subrange(0, 2));
        lemma_encode_type_inverts_decode_type(field);
        lemma_be_bytes_of_u16(buffer.subrange(0, 2));
    }
}

} // verus!
