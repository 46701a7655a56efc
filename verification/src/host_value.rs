//! The host's dynamic value model and its total conversions into the
//! engine's typed values: UTF-8 strings, signed and unsigned 64-bit
//! integers, with explicit overflow and format rejection.

use vstd::prelude::*;
use vstd::string::StringExecFns;
use vstd::utf8::{decode_utf8, valid_utf8};

use crate::tantex_error::TantexError;

verus! {

/// A value in the host's dynamic representation, as far as this layer
/// reads it.
pub enum HostValue {
    /// A contiguous binary, the usual carrier of textual data.
    Binary(Vec<u8>),
    /// A list of raw bytes, the host's character-list shape.
    Bytes(Vec<u8>),
    /// A native small or large integer.
    Int(i64),
    /// An arbitrary-precision integer: a sign and a little-endian
    /// base-256 magnitude (the byte at index zero is least significant).
    Big { negative: bool, magnitude: Vec<u8> },
}

/// The mathematical shape of a host value.
pub enum HostValueModel {
    Binary(Seq<u8>),
    Bytes(Seq<u8>),
    Int(int),
    Big { negative: bool, magnitude: Seq<u8> },
}

impl View for HostValue {
    type V = HostValueModel;

    open spec fn view(&self) -> HostValueModel {
        match self {
            HostValue::Binary(b) => HostValueModel::Binary(b@),
            HostValue::Bytes(b) => HostValueModel::Bytes(b@),
            HostValue::Int(i) => HostValueModel::Int(*i as int),
            HostValue::Big { negative, magnitude } => HostValueModel::Big {
                negative: *negative,
                magnitude: magnitude@,
            },
        }
    }
}

/// Why a host value fails to convert into a given engine type.
pub enum CoerceRejection {
    /// The value has no textual shape.
    NotText,
    /// The bytes are not valid UTF-8.
    NotUtf8,
    /// The value has no numeric shape.
    NotNumeric,
    /// A negative value cannot become unsigned.
    Negative,
    /// The magnitude is longer than eight bytes.
    TooLong,
}

/// The integer a little-endian base-256 magnitude denotes.
pub open spec fn magnitude_value(mag: Seq<u8>) -> nat
    decreases mag.len(),
{
    if mag.len() == 0 {
        0
    } else {
        (mag[0] + 256 * magnitude_value(mag.drop_first())) as nat
    }
}

/// 256 to the power of `n`.
pub open spec fn pow256(n: nat) -> nat
    decreases n,
{
    if n == 0 {
        1
    } else {
        256 * pow256((n - 1) as nat)
    }
}

/// Reading a host value as text: binaries and byte lists are UTF-8
/// validated and decoded; nothing else is textual.
pub open spec fn string_spec(v: HostValueModel) -> Result<Seq<char>, CoerceRejection> {
    match v {
        HostValueModel::Binary(b) => if valid_utf8(b) {
            Ok(decode_utf8(b))
        } else {
            Err(CoerceRejection::NotUtf8)
        },
        HostValueModel::Bytes(b) => if valid_utf8(b) {
            Ok(decode_utf8(b))
        } else {
            Err(CoerceRejection::NotUtf8)
        },
        _ => Err(CoerceRejection::NotText),
    }
}

/// Reading a host value as an unsigned 64-bit integer: native integers
/// must be non-negative; big integers must be non-negative with a
/// magnitude of at most eight bytes, never truncated and never wrapped.
pub open spec fn u64_spec(v: HostValueModel) -> Result<int, CoerceRejection> {
    match v {
        HostValueModel::Int(i) => if i >= 0 {
            Ok(i)
        } else {
            Err(CoerceRejection::Negative)
        },
        HostValueModel::Big { negative, magnitude } => if magnitude.len() > 8 {
            Err(CoerceRejection::TooLong)
        } else if negative {
            Err(CoerceRejection::Negative)
        } else {
            Ok(magnitude_value(magnitude) as int)
        },
        _ => Err(CoerceRejection::NotNumeric),
    }
}

/// The signed reading of a 64-bit bit pattern.
pub open spec fn as_signed_64(u: nat) -> int {
    if u < 0x8000000000000000 {
        u as int
    } else {
        u as int - 0x10000000000000000
    }
}

/// Reading a host value as a signed 64-bit integer: native integers pass
/// through; a big integer's magnitude of at most eight bytes fills a
/// 64-bit buffer, a negative sign applies two's-complement negation, and
/// the buffer is reinterpreted as signed.
pub open spec fn i64_spec(v: HostValueModel) -> Result<int, CoerceRejection> {
    match v {
        HostValueModel::Int(i) => Ok(i),
        HostValueModel::Big { negative, magnitude } => if magnitude.len() > 8 {
            Err(CoerceRejection::TooLong)
        } else {
            let u = magnitude_value(magnitude);
            if negative {
                Ok(as_signed_64(((0x10000000000000000 - u) % 0x10000000000000000) as nat))
            } else {
                Ok(as_signed_64(u))
            }
        },
        _ => Err(CoerceRejection::NotNumeric),
    }
}

proof fn lemma_pow256_pos(n: nat)
    ensures
        pow256(n) >= 1,
    decreases n,
{
    if n > 0 {
        lemma_pow256_pos((n - 1) as nat);
    }
}

proof fn lemma_pow256_monotone(a: nat, b: nat)
    requires
        a <= b,
    ensures
        pow256(a) <= pow256(b),
    decreases b,
{
    if a < b {
        lemma_pow256_monotone(a, (b - 1) as nat);
        lemma_pow256_pos((b - 1) as nat);
    }
}

/// A magnitude of at most eight bytes always denotes a value below 2^64.
pub proof fn lemma_magnitude_fits(mag: Seq<u8>)
    requires
        mag.len() <= 8,
    ensures
        magnitude_value(mag) < 0x10000000000000000,
{
    lemma_magnitude_bound(mag);
    lemma_pow256_monotone(mag.len(), 8);
    assert(pow256(8) == 0x10000000000000000) by {
        reveal_with_fuel(pow256, 9);
    }
}

proof fn lemma_magnitude_bound(mag: Seq<u8>)
    ensures
        magnitude_value(mag) < pow256(mag.len()),
    decreases mag.len(),
{
    if mag.len() > 0 {
        lemma_magnitude_bound(mag.drop_first());
    }
}

/// Decodes a little-endian magnitude of at most eight bytes.
fn magnitude_to_u64(magnitude: &Vec<u8>) -> (r: u64)
    requires
        magnitude@.len() <= 8,
    ensures
        r as nat == magnitude_value(magnitude@),
{
    let len = magnitude.len();
    let mut acc: u64 = 0;
    let mut j: usize = len;
    while j > 0
        invariant
            j <= len,
            len == magnitude@.len(),
            len <= 8,
            acc as nat == magnitude_value(magnitude@.subrange(j as int, len as int)),
            (acc as nat) < pow256((len - j) as nat),
        decreases j,
    {
        let b = magnitude[j - 1];
        proof {
            assert(magnitude@.subrange(j - 1, len as int).drop_first() =~= magnitude@.subrange(
                j as int,
                len as int,
            ));
            lemma_pow256_monotone((len - j) as nat, 7);
            assert(pow256(7) == 0x100000000000000) by {
                reveal_with_fuel(pow256, 8);
            }
        }
        acc = acc * 256 + (b as u64);
        j = j - 1;
    }
    proof {
        assert(magnitude@.subrange(0, len as int) =~= magnitude@);
    }
    acc
}

/// Relies on `String::from_utf8`: it succeeds exactly on valid UTF-8
/// input, decoding it into the string with those bytes, and its error
/// (through `FromUtf8Error::into_bytes`) returns the input unchanged.
#[verifier::external_body]
fn vec_into_utf8(bytes: Vec<u8>) -> (r: Result<String, Vec<u8>>)
    ensures
        r is Ok <==> valid_utf8(bytes@),
        r matches Ok(s) ==> s@ == decode_utf8(bytes@),
        r matches Err(b) ==> b@ == bytes@,
{
    match String::from_utf8(bytes) {
        Ok(s) => Ok(s),
        Err(e) => Err(e.into_bytes()),
    }
}

impl HostValue {
    /// The shape's short name, used in rejection details.
    pub open spec fn describe_spec(self) -> Seq<char> {
        match self {
            HostValue::Binary(_) => "binary"@,
            HostValue::Bytes(_) => "byte list"@,
            HostValue::Int(_) => "integer"@,
            HostValue::Big { .. } => "big integer"@,
        }
    }

    /// Names the value's shape for rejection details.
    pub fn describe(&self) -> (r: String)
        ensures
            r@ == self.describe_spec(),
    {
        match self {
            HostValue::Binary(_) => String::from_str("binary"),
            HostValue::Bytes(_) => String::from_str("byte list"),
            HostValue::Int(_) => String::from_str("integer"),
            HostValue::Big { .. } => String::from_str("big integer"),
        }
    }
}

/// Reads a host value as a UTF-8 string, exactly as `string_spec` says:
/// textual shapes are UTF-8 validated, carrying the offending bytes on
/// failure, and non-textual shapes are rejected outright.
pub fn term_to_string(v: &HostValue) -> (r: Result<String, TantexError>)
    ensures
        r is Ok <==> string_spec(v@) is Ok,
        string_spec(v@) matches Ok(s) ==> (r matches Ok(rs) && rs@ == s),
        string_spec(v@) matches Err(CoerceRejection::NotUtf8) ==> ((r matches Err(
            TantexError::InvalidUTF8(b),
        ) && HostValueModel::Binary(b@) == v@) || (r matches Err(TantexError::InvalidUTF8(b))
            && HostValueModel::Bytes(b@) == v@)),
        string_spec(v@) matches Err(CoerceRejection::NotText) ==> r matches Err(
            TantexError::TermCannotBeString(_),
        ),
{
    match v {
        HostValue::Binary(b) => match vec_into_utf8(b.clone()) {
            Ok(s) => Ok(s),
            Err(bad) => Err(TantexError::InvalidUTF8(bad)),
        },
        HostValue::Bytes(b) => match vec_into_utf8(b.clone()) {
            Ok(s) => Ok(s),
            Err(bad) => Err(TantexError::InvalidUTF8(bad)),
        },
        _ => Err(TantexError::TermCannotBeString(v.describe())),
    }
}

/// Reads a host value as an unsigned 64-bit integer, exactly as
/// `u64_spec` says: negative values are rejected outright, never wrapped,
/// and magnitudes over eight bytes are rejected, never truncated.
pub fn term_to_u64(v: &HostValue) -> (r: Result<u64, TantexError>)
    ensures
        r is Ok <==> u64_spec(v@) is Ok,
        u64_spec(v@) matches Ok(u) ==> (r matches Ok(x) && x as int == u),
        u64_spec(v@) matches Err(CoerceRejection::TooLong) ==> (v@ matches HostValueModel::Big {
            magnitude,
            ..
        } && r matches Err(TantexError::Exceeded8Bytes(m)) && m@ == magnitude),
        u64_spec(v@) matches Err(CoerceRejection::Negative) ==> r matches Err(
            TantexError::TermCannotBeUInt64(_),
        ),
        u64_spec(v@) matches Err(CoerceRejection::NotNumeric) ==> r matches Err(
            TantexError::TermCannotBeUInt64(_),
        ),
{
    match v {
        HostValue::Int(i) => {
            if *i >= 0 {
                Ok(*i as u64)
            } else {
                Err(TantexError::TermCannotBeUInt64(v.describe()))
            }
        },
        HostValue::Big { negative, magnitude } => {
            if magnitude.len() > 8 {
                Err(TantexError::Exceeded8Bytes(magnitude.clone()))
            } else if *negative {
                Err(TantexError::TermCannotBeUInt64(v.describe()))
            } else {
                proof {
                    lemma_magnitude_fits(magnitude@);
                }
                Ok(magnitude_to_u64(magnitude))
            }
        },
        _ => Err(TantexError::TermCannotBeUInt64(v.describe())),
    }
}

/// Reads a host value as a signed 64-bit integer, exactly as `i64_spec`
/// says: a short magnitude fills a 64-bit buffer, a negative sign applies
/// two's-complement negation, and magnitudes over eight bytes are
/// rejected, never truncated.
pub fn term_to_i64(v: &HostValue) -> (r: Result<i64, TantexError>)
    ensures
        r is Ok <==> i64_spec(v@) is Ok,
        i64_spec(v@) matches Ok(u) ==> (r matches Ok(x) && x as int == u),
        i64_spec(v@) matches Err(CoerceRejection::TooLong) ==> (v@ matches HostValueModel::Big {
            magnitude,
            ..
        } && r matches Err(TantexError::Exceeded8Bytes(m)) && m@ == magnitude),
        i64_spec(v@) matches Err(CoerceRejection::NotNumeric) ==> r matches Err(
            TantexError::TermCannotBeInt64(_),
        ),
{
    match v {
        HostValue::Int(i) => Ok(*i),
        HostValue::Big { negative, magnitude } => {
            if magnitude.len() > 8 {
                Err(TantexError::Exceeded8Bytes(magnitude.clone()))
            } else {
                proof {
                    lemma_magnitude_fits(magnitude@);
                }
                let u = magnitude_to_u64(magnitude);
                if *negative {
                    if u == 0 {
                        Ok(0)
                    } else if u <= 0x8000000000000000u64 {
                        Ok(-((u - 1) as i64) - 1)
                    } else {
                        Ok(((u64::MAX - u) + 1) as i64)
                    }
                } else {
                    if u < 0x8000000000000000u64 {
                        Ok(u as i64)
                    } else if u == 0x8000000000000000u64 {
                        Ok(i64::MIN)
                    } else {
                        Ok(-((((u64::MAX - u) + 1) - 1) as i64) - 1)
                    }
                }
            }
        },
        _ => Err(TantexError::TermCannotBeInt64(v.describe())),
    }
}

/// A big-integer magnitude longer than eight bytes is always rejected as
/// over-length, on the signed and the unsigned path alike.
pub proof fn lemma_long_magnitude_rejected(negative: bool, magnitude: Seq<u8>)
    requires
        magnitude.len() > 8,
    ensures
        i64_spec(HostValueModel::Big { negative, magnitude }) == Err::<int, CoerceRejection>(
            CoerceRejection::TooLong,
        ),
        u64_spec(HostValueModel::Big { negative, magnitude }) == Err::<int, CoerceRejection>(
            CoerceRejection::TooLong,
        ),
{
}

/// An eight-byte non-negative magnitude decodes on the unsigned path to
/// exactly the integer it denotes.
pub proof fn lemma_full_magnitude_exact(magnitude: Seq<u8>)
    requires
        magnitude.len() == 8,
    ensures
        u64_spec(HostValueModel::Big { negative: false, magnitude }) == Ok::<int, CoerceRejection>(
            magnitude_value(magnitude) as int,
        ),
        magnitude_value(magnitude) < 0x10000000000000000,
{
    lemma_magnitude_fits(magnitude);
}

} // verus!
