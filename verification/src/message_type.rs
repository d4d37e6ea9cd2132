//! The 16-bit message type field, in which the two bits of the class are
//! interleaved with the bits of the method.
//!
//! From the most significant bit down, the field holds two reserved zero bits,
//! five method bits, the high class bit, three method bits, the low class bit
//! and four method bits.

use crate::error::FormatError;
use vstd::prelude::*;

verus! {

/// The two bits of the type field that hold the class.
pub const CLASS_MASK: u16 = 0x0110;

/// The class of a message.
#[derive(Debug, Clone, Copy, PartialEq, Eq, Structural)]
pub enum StunMessageClass {
    Request,
    Indication,
    SuccessResponse,
    ErrorResponse,
}

/// The methods this library knows.
#[derive(Debug, Clone, Copy, PartialEq, Eq, Structural)]
pub enum StunMessageMethod {
    Binding,
    Allocate,
    Refresh,
    Send,
    Data,
    CreatePermission,
    ChannelBind,
}

/// Class and method, the content of the type field.
#[derive(Debug, Clone, Copy, PartialEq, Eq, Structural)]
pub struct StunMessageType {
    pub class: StunMessageClass,
    pub method: StunMessageMethod,
}

/// The method code held by a type field: its bits without the two class
/// bits, closed up and read as one number. The reserved bits count, so a
/// field with one of them set has a code of 4096 or more.
pub open spec fn method_code(field: u16) -> u16 {
    ((field >> 2) & 0x3f80) | ((field >> 1) & 0x0070) | (field & 0x000f)
}

/// The type field that holds `code` and no class bit: the inverse of
/// `method_code` on fields without class bits.
pub open spec fn method_bits(code: u16) -> u16 {
    ((code & 0x3f80) << 2) | ((code & 0x0070) << 1) | (code & 0x000f)
}

/// The class held by a type field.
pub open spec fn class_of(field: u16) -> StunMessageClass {
    let pattern = field & CLASS_MASK;
    if pattern == 0x0000 {
        StunMessageClass::Request
    } else if pattern == 0x0010 {
        StunMessageClass::Indication
    } else if pattern == 0x0100 {
        StunMessageClass::SuccessResponse
    } else {
        StunMessageClass::ErrorResponse
    }
}

/// The method with the given code; a code that is not known gives
/// `MessageMethod`.
pub open spec fn method_of(code: int) -> Result<StunMessageMethod, FormatError> {
    if code == 1 {
        Ok(StunMessageMethod::Binding)
    } else if code == 3 {
        Ok(StunMessageMethod::Allocate)
    } else if code == 4 {
        Ok(StunMessageMethod::Refresh)
    } else if code == 6 {
        Ok(StunMessageMethod::Send)
    } else if code == 7 {
        Ok(StunMessageMethod::Data)
    } else if code == 8 {
        Ok(StunMessageMethod::CreatePermission)
    } else if code == 9 {
        Ok(StunMessageMethod::ChannelBind)
    } else {
        Err(FormatError::MessageMethod)
    }
}

/// What a type field decodes to: its class and the method of its code, or
/// `MessageMethod` where the code is not known.
pub open spec fn decode_type(field: u16) -> Result<StunMessageType, FormatError> {
    match method_of(method_code(field) as int) {
        Ok(method) => Ok(StunMessageType { class: class_of(field), method }),
        Err(error) => Err(error),
    }
}

/// The type field of a class and a method.
pub open spec fn encode_type(message_type: StunMessageType) -> u16 {
    message_type.class.pattern() | method_bits(message_type.method.code() as u16)
}

impl StunMessageClass {
    /// The class bits as they stand in the type field.
    pub open spec fn pattern(self) -> u16 {
        match self {
            StunMessageClass::Request => 0x0000,
            StunMessageClass::Indication => 0x0010,
            StunMessageClass::SuccessResponse => 0x0100,
            StunMessageClass::ErrorResponse => 0x0110,
        }
    }

    /// The two class bits written as text, high bit first.
    pub open spec fn text(self) -> Seq<char> {
        match self {
            StunMessageClass::Request => seq!['0', '0'],
            StunMessageClass::Indication => seq!['0', '1'],
            StunMessageClass::SuccessResponse => seq!['1', '0'],
            StunMessageClass::ErrorResponse => seq!['1', '1'],
        }
    }

    /// The class whose two bits, written as text, are `text`; any other text
    /// gives `MessageClass`.
    pub open spec fn of_text(text: Seq<char>) -> Result<StunMessageClass, FormatError> {
        if text == StunMessageClass::Request.text() {
            Ok(StunMessageClass::Request)
        } else if text == StunMessageClass::Indication.text() {
            Ok(StunMessageClass::Indication)
        } else if text == StunMessageClass::SuccessResponse.text() {
            Ok(StunMessageClass::SuccessResponse)
        } else if text == StunMessageClass::ErrorResponse.text() {
            Ok(StunMessageClass::ErrorResponse)
        } else {
            Err(FormatError::MessageClass)
        }
    }

    /// Reads a class from its two bits written as text, high bit first:
    /// `"00"`, `"01"`, `"10"` or `"11"`. Any other text is rejected with
    /// `MessageClass`.
    pub fn str_to_class(str: &str) -> (result: Result<StunMessageClass, FormatError>)
        ensures
            result == StunMessageClass::of_text(str@),
    {
        if str.unicode_len() != 2 {
            return Err(FormatError::MessageClass);
        }
        let high: char = str.get_char(0);
        let low: char = str.get_char(1);
        assert(str@ =~= seq![high, low]);
        if high == '0' && low == '0' {
            Ok(StunMessageClass::Request)
        } else if high == '0' && low == '1' {
            Ok(StunMessageClass::Indication)
        } else if high == '1' && low == '0' {
            Ok(StunMessageClass::SuccessResponse)
        } else if high == '1' && low == '1' {
            Ok(StunMessageClass::ErrorResponse)
        } else {
            Err(FormatError::MessageClass)
        }
    }

    /// The class held by a type field.
    pub fn from_field(field: u16) -> (class: StunMessageClass)
        ensures
            class == class_of(field),
    {
        let pattern: u16 = field & CLASS_MASK;
        if pattern == 0x0000 {
            StunMessageClass::Request
        } else if pattern == 0x0010 {
            StunMessageClass::Indication
        } else if pattern == 0x0100 {
            StunMessageClass::SuccessResponse
        } else {
            StunMessageClass::ErrorResponse
        }
    }

    /// The class bits as they stand in the type field.
    pub fn to_field(&self) -> (bits: u16)
        ensures
            bits == self.pattern(),
    {
        match self {
            StunMessageClass::Request => 0x0000,
            StunMessageClass::Indication => 0x0010,
            StunMessageClass::SuccessResponse => 0x0100,
            StunMessageClass::ErrorResponse => 0x0110,
        }
    }
}

impl StunMessageMethod {
    /// The code of the method.
    pub open spec fn code(self) -> u8 {
        match self {
            StunMessageMethod::Binding => 1,
            StunMessageMethod::Allocate => 3,
            StunMessageMethod::Refresh => 4,
            StunMessageMethod::Send => 6,
            StunMessageMethod::Data => 7,
            StunMessageMethod::CreatePermission => 8,
            StunMessageMethod::ChannelBind => 9,
        }
    }

    /// The method with code `i`; a code that is not known is rejected with
    /// `MessageMethod`.
    pub fn int_to_class(i: u8) -> (result: Result<StunMessageMethod, FormatError>)
        ensures
            result == method_of(i as int),
    {
        if i == 1 {
            Ok(StunMessageMethod::Binding)
        } else if i == 3 {
            Ok(StunMessageMethod::Allocate)
        } else if i == 4 {
            Ok(StunMessageMethod::Refresh)
        } else if i == 6 {
            Ok(StunMessageMethod::Send)
        } else if i == 7 {
            Ok(StunMessageMethod::Data)
        } else if i == 8 {
            Ok(StunMessageMethod::CreatePermission)
        } else if i == 9 {
            Ok(StunMessageMethod::ChannelBind)
        } else {
            Err(FormatError::MessageMethod)
        }
    }

    /// The code of the method.
    pub fn to_int(&self) -> (code: u8)
        ensures
            code == self.code(),
    {
        match self {
            StunMessageMethod::Binding => 1,
            StunMessageMethod::Allocate => 3,
            StunMessageMethod::Refresh => 4,
            StunMessageMethod::Send => 6,
            StunMessageMethod::Data => 7,
            StunMessageMethod::CreatePermission => 8,
            StunMessageMethod::ChannelBind => 9,
        }
    }
}

impl StunMessageType {
    /// Decodes a type field. Every class pattern is known, so the field is
    /// rejected exactly when its method code is not.
    pub fn from_field(field: u16) -> (result: Result<StunMessageType, FormatError>)
        ensures
            result == decode_type(field),
    {
        let code: u16 = ((field >> 2) & 0x3f80) | ((field >> 1) & 0x0070) | (field & 0x000f);
        if code > 255 {
            return Err(FormatError::MessageMethod);
        }
        match StunMessageMethod::int_to_class(code as u8) {
            Ok(method) => Ok(StunMessageType { class: StunMessageClass::from_field(field), method }),
            Err(error) => Err(error),
        }
    }

    /// Encodes class and method into a type field. The two reserved bits
    /// at its top are zero.
    pub fn to_field(&self) -> (field: u16)
        ensures
            field == encode_type(*self),
            field < 0x4000,
    {
        proof {
            lemma_decode_type_inverts_encode_type(*self);
            lemma_encode_type_inverts_decode_type(encode_type(*self));
        }
        let code: u16 = self.method.to_int() as u16;
        let method: u16 = ((code & 0x3f80) << 2) | ((code & 0x0070) << 1) | (code & 0x000f);
        self.class.to_field() | method
    }
}

/// The digit that a bit is written as.
pub open spec fn bit_digit(bit: u16) -> char {
    if bit == 0 {
        '0'
    } else {
        '1'
    }
}

/// The text of a class spells the two class bits of its pattern, the bit
/// worth `0x0100` before the bit worth `0x0010`, and the class comes back
/// from its text.
pub proof fn lemma_class_text_spells_pattern(class: StunMessageClass)
    ensures
        class.text() == seq![
            bit_digit(class.pattern() / 0x0100 % 2),
            bit_digit(class.pattern() / 0x0010 % 2),
        ],
        StunMessageClass::of_text(class.text()) == Ok::<StunMessageClass, FormatError>(class),
{
}

/// The method code of a field is made of the field's three runs of method
/// bits and its two reserved bits, each run moved down past the class bits
/// below it: the low four bits stay, the next three come from above the low
/// class bit, the upper seven from above the high class bit.
pub proof fn lemma_method_code_runs(field: u16)
    ensures
        method_code(field) & 0x000f == field & 0x000f,
        (method_code(field) >> 4) & 0x0007 == (field >> 5) & 0x0007,
        (method_code(field) >> 7) & 0x007f == (field >> 9) & 0x007f,
        method_code(field) < 0x4000,
        method_code(field) == method_code(field & !CLASS_MASK),
{
    assert(method_code(field) & 0x000f == field & 0x000f) by (bit_vector);
    assert((method_code(field) >> 4) & 0x0007 == (field >> 5) & 0x0007) by (bit_vector);
    assert((method_code(field) >> 7) & 0x007f == (field >> 9) & 0x007f) by (bit_vector);
    assert(method_code(field) < 0x4000) by (bit_vector);
    assert(method_code(field) == method_code(field & !CLASS_MASK)) by (bit_vector);
}

/// Decoding undoes encoding: every class and method come back from their
/// type field.
pub proof fn lemma_decode_type_inverts_encode_type(message_type: StunMessageType)
    ensures
        decode_type(encode_type(message_type)) == Ok::<StunMessageType, FormatError>(message_type),
{
    let pattern = message_type.class.pattern();
    let code = message_type.method.code() as u16;
    assert(method_code(pattern | method_bits(code)) == code && (pattern | method_bits(code))
        & CLASS_MASK == pattern) by (bit_vector)
        requires
            code < 16,
            pattern == 0x0000 || pattern == 0x0010 || pattern == 0x0100 || pattern == 0x0110,
    ;
}

/// Encoding undoes decoding: a type field that decodes is the field of what
/// it decodes to. In particular its reserved bits are zero.
pub proof fn lemma_encode_type_inverts_decode_type(field: u16)
    ensures
        decode_type(field) matches Ok(message_type) ==> encode_type(message_type) == field,
        decode_type(field) is Ok ==> field < 0x4000,
{
    let pattern = field & CLASS_MASK;
    assert(pattern == 0x0000 || pattern == 0x0010 || pattern == 0x0100 || pattern == 0x0110)
        by (bit_vector)
        requires
            pattern == field & CLASS_MASK,
    ;
    assert(pattern | method_bits(method_code(field)) == field) by (bit_vector)
        requires
            pattern == field & CLASS_MASK,
    ;
    assert(method_code(field) < 16 ==> field < 0x4000) by (bit_vector);
}

} // verus!
