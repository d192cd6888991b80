//! How much text a QR code can hold.
//!
//! A payload is encoded in the densest of three modes that can represent it, and the largest
//! symbol holds a fixed number of bytes for each mode and error-correction level. A payload
//! within that number can be encoded; a longer one cannot.

use vstd::prelude::*;

verus! {

/// The three ways of packing a payload into a symbol, densest first.
pub enum Encoding {
    /// Decimal digits only.
    Numeric,
    /// Digits, upper-case letters, the space and `$%*+-./:`.
    Alphanumeric,
    /// Any bytes.
    Byte,
}

/// `b` is an ASCII decimal digit.
pub open spec fn is_digit(b: u8) -> bool {
    0x30 <= b <= 0x39
}

/// `b` belongs to the alphanumeric set of QR codes.
pub open spec fn is_alphanumeric(b: u8) -> bool {
    ||| is_digit(b)
    ||| 0x41 <= b <= 0x5a
    ||| b == 0x20
    ||| b == 0x24
    ||| b == 0x25
    ||| b == 0x2a
    ||| b == 0x2b
    ||| b == 0x2d
    ||| b == 0x2e
    ||| b == 0x2f
    ||| b == 0x3a
}

/// Every byte of `payload` is a decimal digit.
pub open spec fn all_digits(payload: Seq<u8>) -> bool {
    forall|i: int| 0 <= i < payload.len() ==> is_digit(#[trigger] payload[i])
}

/// Every byte of `payload` belongs to the alphanumeric set.
pub open spec fn all_alphanumeric(payload: Seq<u8>) -> bool {
    forall|i: int| 0 <= i < payload.len() ==> is_alphanumeric(#[trigger] payload[i])
}

/// The densest encoding that can represent `payload`.
pub open spec fn encoding_of(payload: Seq<u8>) -> Encoding {
    if all_digits(payload) {
        Encoding::Numeric
    } else if all_alphanumeric(payload) {
        Encoding::Alphanumeric
    } else {
        Encoding::Byte
    }
}

/// The level that is used where a request names none.
pub open spec fn level_or_default(level: Option<fast_qr::ECL>) -> fast_qr::ECL {
    match level {
        Some(level) => level,
        None => fast_qr::ECL::Q,
    }
}

/// The number of payload bytes that the largest symbol holds in `encoding` at `level`.
pub open spec fn capacity(encoding: Encoding, level: fast_qr::ECL) -> nat {
    match encoding {
        Encoding::Numeric => match level {
            fast_qr::ECL::L => 7089,
            fast_qr::ECL::M => 5596,
            fast_qr::ECL::Q => 3993,
            fast_qr::ECL::H => 3057,
        },
        Encoding::Alphanumeric => match level {
            fast_qr::ECL::L => 4296,
            fast_qr::ECL::M => 3391,
            fast_qr::ECL::Q => 2420,
            fast_qr::ECL::H => 1852,
        },
        Encoding::Byte => match level {
            fast_qr::ECL::L => 2953,
            fast_qr::ECL::M => 2331,
            fast_qr::ECL::Q => 1663,
            fast_qr::ECL::H => 1273,
        },
    }
}

/// `payload` can be encoded at `level`.
pub open spec fn payload_fits(payload: Seq<u8>, level: Option<fast_qr::ECL>) -> bool {
    payload.len() <= capacity(encoding_of(payload), level_or_default(level))
}

/// A payload of at most 1273 bytes can be encoded, whatever it holds and at whatever level.
pub proof fn lemma_short_payload_fits(payload: Seq<u8>, level: Option<fast_qr::ECL>)
    requires
        payload.len() <= 1273,
    ensures
        payload_fits(payload, level),
{
}

/// A payload of more than 7089 bytes cannot be encoded, whatever it holds and at whatever level.
pub proof fn lemma_long_payload_does_not_fit(payload: Seq<u8>, level: Option<fast_qr::ECL>)
    requires
        payload.len() > 7089,
    ensures
        !payload_fits(payload, level),
{
}

} // verus!
