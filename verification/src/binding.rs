//! The Binding exchange: what is sent back for a datagram.
//!
//! A listener waits for a datagram, hands it to `respond` together with the
//! address it came from, sends what `respond` gives and waits again. Nothing
//! is kept from one datagram to the next. A datagram that does not decode is
//! dropped; only a Binding Request is answered.
//!
//! A datagram that ends before its header does is dropped as truncated. One
//! that holds a header is decoded as the receive buffer holds it: what
//! follows the header in the buffer is its attribute, zero bytes where the
//! datagram has ended, so that a request of the header alone is answered.

use crate::error::FormatError;
use crate::message::{
    decode, encode, lemma_decode_inverts_encode, lemma_wrong_magic_cookie_is_rejected,
    magic_cookie_bytes, AttributeView, HeaderView, MessageView, StunMessage, StunMessageAttribute,
    StunMessageHeader, HEADER_LENGTH, MAGIC_COOKIE,
};
use crate::message_type::{decode_type, StunMessageClass, StunMessageMethod, StunMessageType};
use crate::wire::{be_bytes_u16, be_u16, lemma_be_u16_of_bytes, u16_to_be_bytes, u32_to_be_bytes};
use crate::xor_address::{
    create_xor_mapped_address_and_port, lemma_mapped_address_of_xor_mapped_address, mapped_address,
    xor_mapped_address, XOR_MAPPED_ADDRESS, XOR_MAPPED_ADDRESS_LENGTH,
};
use vstd::prelude::*;

verus! {

/// The size of the buffer that a datagram is received into.
pub const RECEIVE_BUFFER_SIZE: usize = 1024;

/// The message length of a Binding Success Response: the 4 bytes of type
/// and length of its attribute and the 8 bytes of its value.
pub const BINDING_RESPONSE_LENGTH: u16 = 12;

/// The receive buffer once a datagram has arrived in it: the bytes of the
/// datagram, as far as they fit, and zero bytes after them.
pub open spec fn received(datagram: Seq<u8>) -> Seq<u8> {
    Seq::new(
        RECEIVE_BUFFER_SIZE as nat,
        |i: int|
            if i < datagram.len() {
                datagram[i]
            } else {
                0u8
            },
    )
}

/// The Binding Success Response for a transaction and the address that the
/// request came from.
pub open spec fn binding_success(transaction_id: Seq<u8>, address: Seq<u8>, port: u16) -> MessageView
    recommends
        transaction_id.len() == 12,
        address.len() == 4,
{
    MessageView {
        header: HeaderView {
            message_type: StunMessageType {
                class: StunMessageClass::SuccessResponse,
                method: StunMessageMethod::Binding,
            },
            message_length: be_bytes_u16(BINDING_RESPONSE_LENGTH),
            magic_cookie: magic_cookie_bytes(),
            transaction_id,
        },
        attribute: AttributeView {
            attribute_type: be_bytes_u16(XOR_MAPPED_ADDRESS),
            length: be_bytes_u16(XOR_MAPPED_ADDRESS_LENGTH),
            value: xor_mapped_address(address, port),
        },
    }
}

/// What a datagram decodes to at the listener: `TruncatedHeader` where it
/// is shorter than a header, and otherwise what the receive buffer that
/// holds it decodes to.
pub open spec fn decode_datagram(datagram: Seq<u8>) -> Result<MessageView, FormatError> {
    if datagram.len() < HEADER_LENGTH {
        Err(FormatError::TruncatedHeader)
    } else {
        decode(received(datagram))
    }
}

/// What is sent back for a datagram from the given address: the bytes of a
/// Binding Success Response where the datagram decodes to a Binding Request,
/// nothing where it decodes to anything else, and the error where it does
/// not decode.
pub open spec fn response(datagram: Seq<u8>, address: Seq<u8>, port: u16) -> Result<
    Option<Seq<u8>>,
    FormatError,
>
    recommends
        address.len() == 4,
{
    match decode_datagram(datagram) {
        Err(error) => Err(error),
        Ok(request) => {
            if request.is_binding_request() {
                Ok(Some(encode(binding_success(request.header.transaction_id, address, port))))
            } else {
                Ok(None)
            }
        },
    }
}

impl MessageView {
    /// Whether the message is a request of the Binding method.
    pub open spec fn is_binding_request(self) -> bool {
        self.header.message_type == (StunMessageType {
            class: StunMessageClass::Request,
            method: StunMessageMethod::Binding,
        })
    }
}

impl StunMessage {
    /// Whether the message is a request of the Binding method.
    pub fn is_binding_request(&self) -> (yes: bool)
        ensures
            yes == self@.is_binding_request(),
    {
        let class_matches: bool = match self.header.message_type.class {
            StunMessageClass::Request => true,
            _ => false,
        };
        let method_matches: bool = match self.header.message_type.method {
            StunMessageMethod::Binding => true,
            _ => false,
        };
        class_matches && method_matches
    }

    /// Builds the Binding Success Response for a transaction and the IPv4
    /// address and port that the request came from.
    pub fn binding_success_response(
        transaction_id: [u8; 12],
        address: [u8; 4],
        port: u16,
    ) -> (message: StunMessage)
        ensures
            message@ == binding_success(transaction_id@, address@, port),
            message.well_formed(),
    {
        let value: [u8; 8] = create_xor_mapped_address_and_port(address, port);
        let mut value_bytes: Vec<u8> = Vec::new();
        let mut i: usize = 0;
        while i < 8
            invariant
                i <= 8,
                value_bytes@ == value@.subrange(0, i as int),
            decreases 8 - i,
        {
            value_bytes.push(value[i]);
            i = i + 1;
        }
        assert(value_bytes@ =~= value@);
        StunMessage {
            header: StunMessageHeader {
                message_type: StunMessageType {
                    class: StunMessageClass::SuccessResponse,
                    method: StunMessageMethod::Binding,
                },
                message_length: u16_to_be_bytes(BINDING_RESPONSE_LENGTH),
                magic_cookie: u32_to_be_bytes(MAGIC_COOKIE),
                transaction_id,
            },
            attribute: StunMessageAttribute {
                attribute_type: u16_to_be_bytes(XOR_MAPPED_ADDRESS),
                length: u16_to_be_bytes(XOR_MAPPED_ADDRESS_LENGTH),
                value: value_bytes,
            },
        }
    }
}

/// Lays a datagram into a fresh receive buffer: its first 1024 bytes, and
/// zero bytes up to the size of the buffer.
pub fn receive_buffer(datagram: &[u8]) -> (buffer: Vec<u8>)
    ensures
        buffer@ == received(datagram@),
{
    let mut buffer: Vec<u8> = Vec::new();
    let mut i: usize = 0;
    while i < RECEIVE_BUFFER_SIZE
        invariant
            i <= RECEIVE_BUFFER_SIZE,
            buffer@.len() == i,
            forall|j: int| 0 <= j < i ==> buffer@[j] == received(datagram@)[j],
        decreases RECEIVE_BUFFER_SIZE - i,
    {
        let byte: u8 = if i < datagram.len() {
            datagram[i]
        } else {
            0
        };
        buffer.push(byte);
        i = i + 1;
    }
    buffer
}

/// Decodes a datagram as the listener reads it. A datagram shorter than a
/// header is rejected with `TruncatedHeader`; any other is laid into a
/// receive buffer and the buffer is decoded, so that the attribute is what
/// follows the header there.
pub fn parse_datagram(datagram: &[u8]) -> (result: Result<StunMessage, FormatError>)
    ensures
        result matches Ok(message) ==> decode_datagram(datagram@) == Ok::<
            MessageView,
            FormatError,
        >(message@),
        result matches Err(error) ==> decode_datagram(datagram@) == Err::<
            MessageView,
            FormatError,
        >(error),
{
    if datagram.len() < HEADER_LENGTH {
        return Err(FormatError::TruncatedHeader);
    }
    let buffer: Vec<u8> = receive_buffer(datagram);
    StunMessage::parse(buffer.as_slice())
}

/// Decides what to send back for a datagram that came from the given IPv4
/// address and port.
///
/// `Ok(Some(bytes))` asks the listener to send `bytes` to that address,
/// `Ok(None)` to send nothing, and `Err(error)` tells it why the datagram
/// was dropped. Whichever it is, the listener then waits for the next
/// datagram.
pub fn respond(datagram: &[u8], address: [u8; 4], port: u16) -> (result: Result<
    Option<Vec<u8>>,
    FormatError,
>)
    ensures
        result matches Ok(Some(bytes)) ==> response(datagram@, address@, port) == Ok::<
            Option<Seq<u8>>,
            FormatError,
        >(Some(bytes@)),
        result matches Ok(None) ==> response(datagram@, address@, port) == Ok::<
            Option<Seq<u8>>,
            FormatError,
        >(None),
        result matches Err(error) ==> response(datagram@, address@, port) == Err::<
            Option<Seq<u8>>,
            FormatError,
        >(error),
{
    let request: StunMessage = match parse_datagram(datagram) {
        Ok(request) => request,
        Err(error) => {
            return Err(error);
        },
    };
    if request.is_binding_request() {
        let reply: StunMessage = StunMessage::binding_success_response(
            request.header.transaction_id,
            address,
            port,
        );
        Ok(Some(reply.build()))
    } else {
        Ok(None)
    }
}

/// A Binding Success Response decodes from its 32 bytes, and holds the
/// transaction id it was built for, a message length of 12 and one
/// XOR-MAPPED-ADDRESS attribute of length 8 that stands for the address.
pub proof fn lemma_binding_success_decodes(transaction_id: Seq<u8>, address: Seq<u8>, port: u16)
    requires
        transaction_id.len() == 12,
        address.len() == 4,
    ensures
        binding_success(transaction_id, address, port).well_formed(),
        encode(binding_success(transaction_id, address, port)).len() == 32,
        decode(encode(binding_success(transaction_id, address, port))) == Ok::<
            MessageView,
            FormatError,
        >(binding_success(transaction_id, address, port)),
        be_u16(binding_success(transaction_id, address, port).header.message_length) == 12,
        be_u16(binding_success(transaction_id, address, port).attribute.attribute_type)
            == XOR_MAPPED_ADDRESS,
        be_u16(binding_success(transaction_id, address, port).attribute.length) == 8,
        mapped_address(binding_success(transaction_id, address, port).attribute.value) == Some(
            (address, port),
        ),
{
    let reply = binding_success(transaction_id, address, port);
    lemma_be_u16_of_bytes(BINDING_RESPONSE_LENGTH);
    lemma_be_u16_of_bytes(XOR_MAPPED_ADDRESS);
    lemma_be_u16_of_bytes(XOR_MAPPED_ADDRESS_LENGTH);
    lemma_mapped_address_of_xor_mapped_address(address, port);
    assert(reply.well_formed());
    lemma_decode_inverts_encode(reply);
}

/// A datagram that decodes to a Binding Request, which takes a complete
/// header, is answered, and the answer decodes to a Binding Success Response
/// with the transaction id of the request, a message length of 12 and one
/// XOR-MAPPED-ADDRESS attribute of length 8 that stands for the address the
/// request came from.
pub proof fn lemma_binding_request_is_answered(datagram: Seq<u8>, address: Seq<u8>, port: u16)
    requires
        address.len() == 4,
        datagram.len() >= HEADER_LENGTH,
        decode_datagram(datagram) matches Ok(request) && request.is_binding_request(),
    ensures
        ({
            &&& response(datagram, address, port) matches Ok(Some(bytes))
            &&& bytes.len() == 32
            &&& decode(bytes) matches Ok(reply)
            &&& reply.header.message_type == (StunMessageType {
                class: StunMessageClass::SuccessResponse,
                method: StunMessageMethod::Binding,
            })
            &&& reply.header.transaction_id == decode_datagram(
                datagram,
            )->Ok_0.header.transaction_id
            &&& be_u16(reply.header.message_length) == 12
            &&& be_u16(reply.attribute.attribute_type) == XOR_MAPPED_ADDRESS
            &&& be_u16(reply.attribute.length) == 8
            &&& mapped_address(reply.attribute.value) == Some((address, port))
        }),
{
    let request = decode_datagram(datagram)->Ok_0;
    lemma_binding_success_decodes(request.header.transaction_id, address, port);
}

/// A datagram that ends before its header does is never answered: it is
/// dropped with `TruncatedHeader`, whatever it holds. A datagram that holds
/// a header is never dropped for its attribute: the receive buffer has room
/// for one.
pub proof fn lemma_truncated_header_is_dropped(datagram: Seq<u8>, address: Seq<u8>, port: u16)
    ensures
        datagram.len() < HEADER_LENGTH ==> response(datagram, address, port) == Err::<
            Option<Seq<u8>>,
            FormatError,
        >(FormatError::TruncatedHeader),
        datagram.len() >= HEADER_LENGTH ==> response(datagram, address, port) != Err::<
            Option<Seq<u8>>,
            FormatError,
        >(FormatError::TruncatedHeader) && response(datagram, address, port) != Err::<
            Option<Seq<u8>>,
            FormatError,
        >(FormatError::TruncatedAttribute),
{
}

/// What lies beyond the receive buffer does not matter: a datagram longer
/// than the buffer is handled as its first 1024 bytes are.
pub proof fn lemma_long_datagram_is_cut(datagram: Seq<u8>, address: Seq<u8>, port: u16)
    requires
        datagram.len() > RECEIVE_BUFFER_SIZE,
    ensures
        received(datagram) == datagram.subrange(0, RECEIVE_BUFFER_SIZE as int),
        response(datagram, address, port) == response(
            datagram.subrange(0, RECEIVE_BUFFER_SIZE as int),
            address,
            port,
        ),
{
    let head = datagram.subrange(0, RECEIVE_BUFFER_SIZE as int);
    assert(received(datagram) =~= head);
    assert(received(head) =~= head);
}

/// A datagram whose magic cookie is not the constant is never answered: it
/// fails to decode, and with `MagicCookie` where its header is complete and
/// its type field decodes.
pub proof fn lemma_wrong_magic_cookie_is_dropped(datagram: Seq<u8>, address: Seq<u8>, port: u16)
    requires
        received(datagram).subrange(4, 8) != magic_cookie_bytes(),
    ensures
        decode_datagram(datagram) is Err,
        response(datagram, address, port) is Err,
        datagram.len() >= HEADER_LENGTH && decode_type(
            be_u16(received(datagram).subrange(0, 2)),
        ) is Ok ==> response(datagram, address, port) == Err::<Option<Seq<u8>>, FormatError>(
            FormatError::MagicCookie,
        ),
{
    lemma_wrong_magic_cookie_is_rejected(received(datagram));
}

/// A datagram is answered only if it decodes to a request of the Binding
/// method: a message of any other class or method gets no response.
pub proof fn lemma_only_binding_requests_are_answered(
    datagram: Seq<u8>,
    address: Seq<u8>,
    port: u16,
)
    ensures
        response(datagram, address, port) matches Ok(Some(_)) <==> (decode_datagram(
            datagram,
        ) matches Ok(request) && request.header.message_type.class == StunMessageClass::Request
            && request.header.message_type.method == StunMessageMethod::Binding),
        decode_datagram(datagram) matches Ok(request) && !(request.header.message_type.class
            == StunMessageClass::Request && request.header.message_type.method
            == StunMessageMethod::Binding) ==> response(datagram, address, port) == Ok::<
            Option<Seq<u8>>,
            FormatError,
        >(None),
{
}

} // verus!
