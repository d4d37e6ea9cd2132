//! Why a datagram was rejected.

use vstd::prelude::*;

verus! {

/// The field of a datagram that kept it from being decoded.
#[derive(Debug, Clone, Copy, PartialEq, Eq, Structural)]
pub enum FormatError {
    /// Fewer than the 20 bytes of a header are present.
    TruncatedHeader,
    /// Fewer than the 4 bytes of an attribute's type and length follow the header.
    TruncatedAttribute,
    /// The class is none of the four two-bit patterns.
    MessageClass,
    /// The method code is not one this library knows.
    MessageMethod,
    /// The magic cookie is not `0x2112A442`.
    MagicCookie,
}

impl FormatError {
    /// The error in words.
    pub open spec fn text(self) -> Seq<char> {
        match self {
            FormatError::TruncatedHeader => "STUN header truncated"@,
            FormatError::TruncatedAttribute => "STUN attribute truncated"@,
            FormatError::MessageClass => "STUN message class NG"@,
            FormatError::MessageMethod => "STUN message method NG"@,
            FormatError::MagicCookie => "magic cookie NG"@,
        }
    }

    /// The error in words, for a log line.
    pub fn message(&self) -> (text: &'static str)
        ensures
            text@ == self.text(),
    {
        match self {
            FormatError::TruncatedHeader => "STUN header truncated",
            FormatError::TruncatedAttribute => "STUN attribute truncated",
            FormatError::MessageClass => "STUN message class NG",
            FormatError::MessageMethod => "STUN message method NG",
            FormatError::MagicCookie => "magic cookie NG",
        }
    }
}

} // verus!
