//! Chain-level byte values and their hexadecimal text forms.
//!
//! Requests carry 20-byte account and contract addresses as hexadecimal
//! text; responses carry 32-byte transaction hashes and 32-byte evaluated
//! call results the same way.  Address text is parsed here with an explicit
//! `InvalidRequest` outcome on malformed input, and every value is rendered
//! back to text against an exact character-level specification.

use vstd::prelude::*;
use vstd::string::*;
use crate::error::ApiError;
use crate::text::{bytes_hex_chars, push_hex_bytes, push_short_hex, short_hex_chars};

verus! {

/// True of an ASCII byte that is a hexadecimal digit.
pub open spec fn is_hex_digit_byte(b: u8) -> bool {
    (0x30 <= b <= 0x39) || (0x61 <= b <= 0x66) || (0x41 <= b <= 0x46)
}

/// The value of a hexadecimal digit byte.
pub open spec fn hex_digit_value(b: u8) -> u8 {
    if 0x30 <= b <= 0x39 {
        (b - 0x30) as u8
    } else if 0x61 <= b <= 0x66 {
        (b - 0x61 + 10) as u8
    } else {
        (b - 0x41 + 10) as u8
    }
}

/// True when the text begins with the `0x` marker.
pub open spec fn has_hex_prefix(s: Seq<u8>) -> bool {
    s.len() >= 2 && s[0] == 0x30 && s[1] == 0x78
}

/// The digit part of hexadecimal text: everything after an optional `0x`.
pub open spec fn hex_digits_of(s: Seq<u8>) -> Seq<u8> {
    if has_hex_prefix(s) {
        s.skip(2)
    } else {
        s
    }
}

/// True of text that denotes a 20-byte address: exactly 40 hexadecimal
/// digits after an optional `0x` marker.
pub open spec fn valid_address_text(s: Seq<u8>) -> bool {
    let d = hex_digits_of(s);
    d.len() == 40 && (forall|i: int| 0 <= i < 40 ==> is_hex_digit_byte(#[trigger] d[i]))
}

/// The bytes denoted by a sequence of hexadecimal digit bytes, two digits
/// per byte, high digit first.
pub open spec fn decoded_hex(d: Seq<u8>) -> Seq<u8> {
    Seq::new(
        d.len() / 2,
        |i: int| (hex_digit_value(d[2 * i]) * 16 + hex_digit_value(d[2 * i + 1])) as u8,
    )
}

/// The full hexadecimal text of a byte string, with the `0x` marker.
pub open spec fn hex_text(bs: Seq<u8>) -> Seq<char> {
    "0x"@ + bytes_hex_chars(bs)
}

/// The shortest hexadecimal text of a byte string read as a big-endian
/// number, with the `0x` marker.
pub open spec fn short_hex_text(bs: Seq<u8>) -> Seq<char> {
    "0x"@ + short_hex_chars(bs)
}

/// Decides whether a byte is a hexadecimal digit.
fn is_hex_digit(b: u8) -> (r: bool)
    ensures
        r == is_hex_digit_byte(b),
{
    (0x30 <= b && b <= 0x39) || (0x61 <= b && b <= 0x66) || (0x41 <= b && b <= 0x46)
}

/// The value of a hexadecimal digit byte.
fn hex_val(b: u8) -> (r: u8)
    requires
        is_hex_digit_byte(b),
    ensures
        r == hex_digit_value(b),
{
    if b <= 0x39 {
        b - 0x30
    } else if b >= 0x61 {
        b - 0x61 + 10
    } else {
        b - 0x41 + 10
    }
}

/// A 20-byte account or contract address.
#[derive(Debug, Clone, PartialEq)]
pub struct ChainAddress {
    bytes: Vec<u8>,
}

impl View for ChainAddress {
    type V = Seq<u8>;

    closed spec fn view(&self) -> Seq<u8> {
        self.bytes@
    }
}

impl ChainAddress {
    /// Well-formedness: exactly 20 bytes.
    pub open spec fn wf(&self) -> bool {
        self@.len() == 20
    }

    /// Wraps exactly 20 bytes as an address.
    pub fn new(bytes: Vec<u8>) -> (r: Option<ChainAddress>)
        ensures
            r is Some <==> bytes@.len() == 20,
            r matches Some(a) ==> a@ == bytes@ && a.wf(),
    {
        if bytes.len() == 20 {
            Some(ChainAddress { bytes })
        } else {
            None
        }
    }

    /// The raw bytes of the address.
    pub fn bytes(&self) -> (r: &Vec<u8>)
        ensures
            r@ == self@,
    {
        &self.bytes
    }

    /// A second address with the same bytes.
    pub fn duplicate(&self) -> (r: ChainAddress)
        ensures
            r@ == self@,
    {
        let mut v: Vec<u8> = Vec::new();
        let mut i: usize = 0;
        while i < self.bytes.len()
            invariant
                i <= self.bytes@.len(),
                v@ =~= self.bytes@.take(i as int),
            decreases self.bytes@.len() - i,
        {
            v.push(self.bytes[i]);
            i = i + 1;
        }
        proof {
            assert(self.bytes@.take(self.bytes@.len() as int) =~= self.bytes@);
        }
        ChainAddress { bytes: v }
    }

    /// The full hexadecimal text of the address.
    pub fn to_hex(&self) -> (r: String)
        ensures
            r@ == hex_text(self@),
    {
        let mut s = String::from_str("0x");
        push_hex_bytes(&mut s, &self.bytes);
        s
    }
}

/// Parses address text: an optional `0x` marker followed by exactly 40
/// hexadecimal digits.  Malformed text is an `InvalidRequest`, never a
/// fault.
pub fn parse_address(s: &str) -> (r: Result<ChainAddress, ApiError>)
    ensures
        r is Ok <==> valid_address_text(s.spec_bytes()),
        r matches Ok(a) ==> a@ == decoded_hex(hex_digits_of(s.spec_bytes())) && a.wf(),
        r is Err ==> r == Err::<ChainAddress, ApiError>(ApiError::InvalidRequest),
{
    let bytes: Vec<u8> = s.as_bytes_vec();
    let start: usize = if bytes.len() >= 2 && bytes[0] == 0x30 && bytes[1] == 0x78 {
        2
    } else {
        0
    };
    proof {
        assert(hex_digits_of(bytes@) =~= bytes@.skip(start as int));
    }
    if bytes.len() - start != 40 {
        return Err(ApiError::InvalidRequest);
    }
    let ghost d = hex_digits_of(bytes@);
    let mut out: Vec<u8> = Vec::new();
    let mut i: usize = 0;
    while i < 20
        invariant
            i <= 20,
            bytes@ == s.spec_bytes(),
            bytes@.len() - start == 40,
            start + 40 <= bytes@.len(),
            d == hex_digits_of(bytes@),
            d =~= bytes@.skip(start as int),
            d.len() == 40,
            out@.len() == i,
            forall|k: int| 0 <= k < 2 * i ==> is_hex_digit_byte(#[trigger] d[k]),
            forall|j: int| 0 <= j < i ==> out@[j] == decoded_hex(d)[j],
        decreases 20 - i,
    {
        let hi = bytes[start + 2 * i];
        let lo = bytes[start + 2 * i + 1];
        proof {
            assert(d[2 * (i as int)] == hi);
            assert(d[2 * (i as int) + 1] == lo);
        }
        if !is_hex_digit(hi) || !is_hex_digit(lo) {
            proof {
                assert(!valid_address_text(s.spec_bytes())) by {
                    if valid_address_text(s.spec_bytes()) {
                        assert(is_hex_digit_byte(hex_digits_of(s.spec_bytes())[2 * (i as int)]));
                        assert(is_hex_digit_byte(
                            hex_digits_of(s.spec_bytes())[2 * (i as int) + 1],
                        ));
                    }
                }
            }
            return Err(ApiError::InvalidRequest);
        }
        let v = hex_val(hi) * 16 + hex_val(lo);
        out.push(v);
        i = i + 1;
    }
    proof {
        assert(out@ =~= decoded_hex(d));
    }
    Ok(ChainAddress { bytes: out })
}

/// A 32-byte transaction hash.
#[derive(Debug, Clone, PartialEq)]
pub struct TxHash {
    bytes: Vec<u8>,
}

impl View for TxHash {
    type V = Seq<u8>;

    closed spec fn view(&self) -> Seq<u8> {
        self.bytes@
    }
}

impl TxHash {
    /// Well-formedness: exactly 32 bytes.
    pub open spec fn wf(&self) -> bool {
        self@.len() == 32
    }

    /// Wraps exactly 32 bytes as a transaction hash.
    pub fn new(bytes: Vec<u8>) -> (r: Option<TxHash>)
        ensures
            r is Some <==> bytes@.len() == 32,
            r matches Some(h) ==> h@ == bytes@ && h.wf(),
    {
        if bytes.len() == 32 {
            Some(TxHash { bytes })
        } else {
            None
        }
    }

    /// The full hexadecimal text of the hash.
    pub fn to_hex(&self) -> (r: String)
        ensures
            r@ == hex_text(self@),
    {
        let mut s = String::from_str("0x");
        push_hex_bytes(&mut s, &self.bytes);
        s
    }
}

/// A 32-byte word returned by a read-only contract evaluation.
#[derive(Debug, Clone, PartialEq)]
pub struct ValueWord {
    bytes: Vec<u8>,
}

impl View for ValueWord {
    type V = Seq<u8>;

    closed spec fn view(&self) -> Seq<u8> {
        self.bytes@
    }
}

impl ValueWord {
    /// Well-formedness: exactly 32 bytes.
    pub open spec fn wf(&self) -> bool {
        self@.len() == 32
    }

    /// Wraps exactly 32 bytes as an evaluated value.
    pub fn new(bytes: Vec<u8>) -> (r: Option<ValueWord>)
        ensures
            r is Some <==> bytes@.len() == 32,
            r matches Some(v) ==> v@ == bytes@ && v.wf(),
    {
        if bytes.len() == 32 {
            Some(ValueWord { bytes })
        } else {
            None
        }
    }

    /// The shortest hexadecimal text of the value read as a big-endian
    /// number.
    pub fn to_short_hex(&self) -> (r: String)
        ensures
            r@ == short_hex_text(self@),
    {
        let mut s = String::from_str("0x");
        push_short_hex(&mut s, &self.bytes);
        s
    }
}

} // verus!
