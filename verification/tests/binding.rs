use stun_binding::binding::parse_datagram;
use stun_binding::binding::receive_buffer;
use stun_binding::binding::respond;
use stun_binding::binding::BINDING_RESPONSE_LENGTH;
use stun_binding::binding::RECEIVE_BUFFER_SIZE;
use stun_binding::error::FormatError;
use stun_binding::message::StunMessage;
use stun_binding::message_type::StunMessageClass;
use stun_binding::message_type::StunMessageMethod;
use stun_binding::message_type::StunMessageType;
use stun_binding::xor_address::read_xor_mapped_address;

const TRANSACTION_ID: [u8; 12] =
    [0xb7, 0xe7, 0xa7, 0x01, 0xbc, 0x34, 0xd6, 0x86, 0xfa, 0x87, 0xdf, 0xae];

fn header(class: StunMessageClass, method: StunMessageMethod) -> Vec<u8> {
    let field = StunMessageType { class, method }.to_field().to_be_bytes();
    let mut bytes = vec![field[0], field[1], 0x00, 0x00, 0x21, 0x12, 0xa4, 0x42];
    bytes.extend_from_slice(&TRANSACTION_ID);
    bytes
}

fn binding_request() -> Vec<u8> {
    header(StunMessageClass::Request, StunMessageMethod::Binding)
}

#[test]
fn binding_constants() {
    assert_eq!(RECEIVE_BUFFER_SIZE, 1024);
    assert_eq!(BINDING_RESPONSE_LENGTH, 12);
}

#[test]
fn a_binding_request_gets_the_address_it_came_from() {
    let request = binding_request();
    assert_eq!(request.len(), 20);
    let bytes = respond(&request, [203, 0, 113, 5], 40000).unwrap().unwrap();
    assert_eq!(
        bytes,
        vec![
            0x01, 0x01, 0x00, 0x0c, 0x21, 0x12, 0xa4, 0x42, // type, length, magic cookie
            0xb7, 0xe7, 0xa7, 0x01, 0xbc, 0x34, 0xd6, 0x86, 0xfa, 0x87, 0xdf, 0xae, // transaction id
            0x00, 0x20, 0x00, 0x08, // attribute type and length
            0x00, 0x01, 0xbd, 0x52, 0xea, 0x12, 0xd5, 0x47, // value
        ]
    );
    let reply = StunMessage::parse(&bytes).unwrap();
    assert_eq!(
        reply.header.message_type,
        StunMessageType {
            class: StunMessageClass::SuccessResponse,
            method: StunMessageMethod::Binding,
        }
    );
    assert_eq!(reply.header.transaction_id, TRANSACTION_ID);
    assert_eq!(reply.header.magic_cookie, [0x21, 0x12, 0xa4, 0x42]);
    assert_eq!(u16::from_be_bytes(reply.header.message_length), 12);
    assert_eq!(u16::from_be_bytes(reply.attribute.attribute_type), 0x0020);
    assert_eq!(u16::from_be_bytes(reply.attribute.length), 8);
    assert_eq!(reply.attribute.value.len(), 8);
    assert_eq!(
        read_xor_mapped_address(&reply.attribute.value),
        Some(([203, 0, 113, 5], 40000))
    );
}

#[test]
fn the_attribute_of_a_request_does_not_matter() {
    let bare = respond(&binding_request(), [203, 0, 113, 5], 40000);
    let mut request = binding_request();
    request.extend_from_slice(&[0x80, 0x22, 0x00, 0x04, b't', b'e', b's', b't']);
    assert_eq!(respond(&request, [203, 0, 113, 5], 40000), bare);
    let mut buffer = [0u8; 1024];
    buffer[..28].copy_from_slice(&request);
    assert_eq!(respond(&buffer, [203, 0, 113, 5], 40000), bare);
    assert!(matches!(bare, Ok(Some(_))));
}

#[test]
fn the_transaction_id_is_echoed() {
    for seed in 0..=255u8 {
        let mut request = binding_request();
        for (offset, byte) in request[8..20].iter_mut().enumerate() {
            *byte = seed.wrapping_mul(31).wrapping_add(offset as u8);
        }
        let bytes = respond(&request, [192, 0, 2, 1], 32853).unwrap().unwrap();
        let reply = StunMessage::parse(&bytes).unwrap();
        assert_eq!(&reply.header.transaction_id[..], &request[8..20]);
        assert_eq!(reply.header.message_type.class, StunMessageClass::SuccessResponse);
        assert_eq!(reply.header.message_type.method, StunMessageMethod::Binding);
        assert_eq!(read_xor_mapped_address(&reply.attribute.value), Some(([192, 0, 2, 1], 32853)));
    }
}

#[test]
fn a_zero_magic_cookie_gets_no_response() {
    let mut request = binding_request();
    request[4..8].copy_from_slice(&[0, 0, 0, 0]);
    assert_eq!(respond(&request, [203, 0, 113, 5], 40000), Err(FormatError::MagicCookie));
}

#[test]
fn any_wrong_magic_cookie_gets_no_response() {
    for position in 4..8 {
        for bit in 0..8 {
            let mut request = binding_request();
            request[position] ^= 1 << bit;
            assert_eq!(respond(&request, [203, 0, 113, 5], 40000), Err(FormatError::MagicCookie));
        }
    }
}

#[test]
fn an_allocate_request_gets_no_response() {
    let request = header(StunMessageClass::Request, StunMessageMethod::Allocate);
    assert_eq!(respond(&request, [203, 0, 113, 5], 40000), Ok(None));
}

#[test]
fn only_binding_requests_get_a_response() {
    let classes = [
        StunMessageClass::Request,
        StunMessageClass::Indication,
        StunMessageClass::SuccessResponse,
        StunMessageClass::ErrorResponse,
    ];
    let methods = [
        StunMessageMethod::Binding,
        StunMessageMethod::Allocate,
        StunMessageMethod::Refresh,
        StunMessageMethod::Send,
        StunMessageMethod::Data,
        StunMessageMethod::CreatePermission,
        StunMessageMethod::ChannelBind,
    ];
    for class in classes {
        for method in methods {
            let result = respond(&header(class, method), [10, 0, 0, 1], 5000);
            if class == StunMessageClass::Request && method == StunMessageMethod::Binding {
                assert!(matches!(result, Ok(Some(_))));
            } else {
                assert_eq!(result, Ok(None));
            }
        }
    }
}

#[test]
fn is_binding_request_looks_at_class_and_method() {
    let mut bytes = binding_request();
    bytes.extend_from_slice(&[0, 0, 0, 0]);
    assert!(StunMessage::parse(&bytes).unwrap().is_binding_request());
    bytes[1] = 0x03;
    assert!(!StunMessage::parse(&bytes).unwrap().is_binding_request());
    bytes[0] = 0x01;
    bytes[1] = 0x01;
    assert!(!StunMessage::parse(&bytes).unwrap().is_binding_request());
}

#[test]
fn an_unknown_method_gets_no_response() {
    let mut request = binding_request();
    request[1] = 0x02;
    assert_eq!(respond(&request, [203, 0, 113, 5], 40000), Err(FormatError::MessageMethod));
    request[0] = 0x80;
    request[1] = 0x01;
    assert_eq!(respond(&request, [203, 0, 113, 5], 40000), Err(FormatError::MessageMethod));
}

#[test]
fn short_datagrams_are_dropped_as_truncated() {
    assert_eq!(respond(&[], [203, 0, 113, 5], 40000), Err(FormatError::TruncatedHeader));
    assert_eq!(respond(&[0x00, 0x01], [203, 0, 113, 5], 40000), Err(FormatError::TruncatedHeader));
    // Type and cookie of a Binding Request, and no transaction id.
    assert_eq!(
        respond(&[0x00, 0x01, 0x00, 0x00, 0x21, 0x12, 0xa4, 0x42], [203, 0, 113, 5], 40000),
        Err(FormatError::TruncatedHeader)
    );
    assert_eq!(
        respond(&binding_request()[..8], [203, 0, 113, 5], 40000),
        Err(FormatError::TruncatedHeader)
    );
}

#[test]
fn a_binding_request_cut_anywhere_in_its_header_is_dropped() {
    let request = binding_request();
    for length in 0..20 {
        assert_eq!(
            respond(&request[..length], [203, 0, 113, 5], 40000),
            Err(FormatError::TruncatedHeader)
        );
        assert_eq!(parse_datagram(&request[..length]), Err(FormatError::TruncatedHeader));
    }
    assert!(matches!(respond(&request[..20], [203, 0, 113, 5], 40000), Ok(Some(_))));
}

#[test]
fn a_truncated_header_is_named_before_anything_in_it() {
    // Unknown method and wrong cookie, in 19 bytes.
    let mut request = binding_request();
    request.truncate(19);
    request[1] = 0x02;
    request[4] = 0;
    assert_eq!(respond(&request, [203, 0, 113, 5], 40000), Err(FormatError::TruncatedHeader));
}

#[test]
fn a_short_attribute_is_read_with_zero_bytes_after_it() {
    let bare = respond(&binding_request(), [203, 0, 113, 5], 40000);
    for extra in 1..4 {
        let mut request = binding_request();
        request.resize(20 + extra, 0x7f);
        assert_eq!(respond(&request, [203, 0, 113, 5], 40000), bare);
        let message = parse_datagram(&request).unwrap();
        assert_eq!(message.attribute.value.len(), 1000);
    }
}

#[test]
fn a_datagram_is_decoded_as_the_receive_buffer_holds_it() {
    let mut request = binding_request();
    request.extend_from_slice(&[0x80, 0x22, 0x00, 0x04, b't', b'e', b's', b't']);
    let message = parse_datagram(&request).unwrap();
    assert_eq!(Ok(message.clone()), StunMessage::parse(&receive_buffer(&request)));
    assert!(message.is_binding_request());
    assert_eq!(message.header.transaction_id, TRANSACTION_ID);
    assert_eq!(message.attribute.attribute_type, [0x80, 0x22]);
    assert_eq!(message.attribute.length, [0x00, 0x04]);
    assert_eq!(message.attribute.value.len(), 1000);
    assert_eq!(&message.attribute.value[..4], b"test");
    assert!(message.attribute.value[4..].iter().all(|byte| *byte == 0));
    // The header alone: an attribute of zero bytes.
    let bare = parse_datagram(&binding_request()).unwrap();
    assert_eq!(bare.attribute.attribute_type, [0, 0]);
    assert_eq!(bare.attribute.length, [0, 0]);
    assert_eq!(bare.attribute.value, vec![0u8; 1000]);
}

#[test]
fn a_datagram_that_does_not_decode_names_its_field() {
    let mut request = binding_request();
    request[1] = 0x02;
    assert_eq!(parse_datagram(&request), Err(FormatError::MessageMethod));
    request[1] = 0x01;
    request[7] = 0x43;
    assert_eq!(parse_datagram(&request), Err(FormatError::MagicCookie));
}

#[test]
fn the_receive_buffer_holds_the_datagram_and_zeros() {
    let buffer = receive_buffer(&[1, 2, 3]);
    assert_eq!(buffer.len(), 1024);
    assert_eq!(&buffer[..3], &[1, 2, 3]);
    assert!(buffer[3..].iter().all(|byte| *byte == 0));
    assert_eq!(receive_buffer(&[]), vec![0u8; 1024]);
}

#[test]
fn the_receive_buffer_cuts_a_long_datagram() {
    let datagram: Vec<u8> = (0..2000u32).map(|i| (i % 251) as u8 + 1).collect();
    let buffer = receive_buffer(&datagram);
    assert_eq!(buffer, &datagram[..1024]);
    let exact = receive_buffer(&datagram[..1024]);
    assert_eq!(exact, &datagram[..1024]);
}

#[test]
fn a_long_binding_request_is_still_answered() {
    let mut request = binding_request();
    request.resize(1500, 0xaa);
    let short = respond(&binding_request(), [203, 0, 113, 5], 40000);
    assert_eq!(respond(&request, [203, 0, 113, 5], 40000), short);
}

#[test]
fn the_response_is_built_from_its_parts() {
    let message = StunMessage::binding_success_response(TRANSACTION_ID, [203, 0, 113, 5], 40000);
    assert_eq!(message.header.message_length, [0x00, 0x0c]);
    assert_eq!(message.header.magic_cookie, [0x21, 0x12, 0xa4, 0x42]);
    assert_eq!(message.header.transaction_id, TRANSACTION_ID);
    assert_eq!(message.attribute.attribute_type, [0x00, 0x20]);
    assert_eq!(message.attribute.length, [0x00, 0x08]);
    assert_eq!(message.attribute.value, vec![0x00, 0x01, 0xbd, 0x52, 0xea, 0x12, 0xd5, 0x47]);
    assert_eq!(
        respond(&binding_request(), [203, 0, 113, 5], 40000),
        Ok(Some(message.build()))
    );
}
