//! Byte-level readers: a big-endian integer and a LEB128 varint.
use vstd::prelude::*;

verus! {

/// The unsigned integer that the first four bytes of `b` spell, most significant first.
pub open spec fn be_u32(b: Seq<u8>) -> int {
    b[0] * 0x1000000 + b[1] * 0x10000 + b[2] * 0x100 + b[3]
}

/// Relies on byteorder's `BigEndian::read_u32`: the first four bytes, most significant first.
#[verifier::external_body]
pub(crate) fn read_be_u32(b: &[u8]) -> (r: u32)
    requires
        b@.len() >= 4,
    ensures
        r as int == be_u32(b@),
{
    <byteorder::BigEndian as byteorder::ByteOrder>::read_u32(b)
}

/// Number of bytes taken by the varint at the front of `s`, scanning from byte `i`:
/// the first byte without the continuation bit ends it. At most ten bytes are read,
/// and a tenth byte above 1 would overflow 64 bits.
pub open spec fn varint_len_from(s: Seq<u8>, i: int) -> Option<nat>
    decreases 10 - i,
{
    if i < 0 || i >= 10 || i >= s.len() {
        None
    } else if s[i] < 0x80 {
        if i == 9 && s[i] >= 2 {
            None
        } else {
            Some((i + 1) as nat)
        }
    } else {
        varint_len_from(s, i + 1)
    }
}

/// Number of bytes of the varint at the front of `s`, or `None` where none is there.
pub open spec fn varint_len(s: Seq<u8>) -> Option<nat> {
    varint_len_from(s, 0)
}

/// The value of bytes `i..n` of `s` read as LEB128 groups, least significant first.
pub open spec fn varint_value_from(s: Seq<u8>, i: int, n: int) -> int
    decreases n - i,
{
    if i >= n {
        0
    } else {
        (s[i] % 0x80) + 0x80 * varint_value_from(s, i + 1, n)
    }
}

/// The value of the varint at the front of `s` that takes `n` bytes.
pub open spec fn varint_value(s: Seq<u8>, n: int) -> int {
    varint_value_from(s, 0, n)
}

/// Relies on `prost::encoding::decode_varint`: it reads the varint at the front of `b`
/// and leaves the bytes after it; it fails where `varint_len` finds none.
#[verifier::external_body]
fn decode_varint_rest(b: &[u8]) -> (r: Result<(u64, usize), prost::DecodeError>)
    ensures
        match r {
            Ok((v, rest)) => rest <= b@.len() && varint_len(b@) == Some((b@.len() - rest) as nat)
                && v as int == varint_value(b@, b@.len() - rest),
            Err(_) => varint_len(b@) is None,
        },
{
    let mut rest: &[u8] = b;
    let v = prost::encoding::decode_varint(&mut rest)?;
    Ok((v, rest.len()))
}

/// Reads the varint at the front of `b`: its value and the number of bytes it takes.
pub fn read_varint(b: &[u8]) -> (r: Result<(u64, usize), prost::DecodeError>)
    ensures
        match r {
            Ok((v, n)) => n <= b@.len() && varint_len(b@) == Some(n as nat) && v as int
                == varint_value(b@, n as int),
            Err(_) => varint_len(b@) is None,
        },
{
    match decode_varint_rest(b) {
        Ok((v, rest)) => Ok((v, b.len() - rest)),
        Err(e) => Err(e),
    }
}

/// Relies on `prost::DecodeError::new`: the error that prost reports for a
/// length prefix that runs past the end of its buffer.
#[verifier::external_body]
pub(crate) fn underflow_error() -> (r: prost::DecodeError) {
    prost::DecodeError::new("buffer underflow")
}

/// Relies on `std::io::Error::from`: the error for a read that ended early.
#[verifier::external_body]
pub(crate) fn unexpected_eof() -> (r: std::io::Error) {
    std::io::Error::from(std::io::ErrorKind::UnexpectedEof)
}

/// Whether two byte slices hold the same bytes.
pub fn bytes_eq(a: &[u8], b: &[u8]) -> (r: bool)
    ensures
        r == (a@ == b@),
{
    if a.len() != b.len() {
        return false;
    }
    let mut i: usize = 0;
    while i < a.len()
        invariant
            a@.len() == b@.len(),
            0 <= i <= a@.len(),
            forall|j: int| 0 <= j < i ==> a@[j] == b@[j],
        decreases a@.len() - i,
    {
        if a[i] != b[i] {
            return false;
        }
        i = i + 1;
    }
    assert(a@ =~= b@);
    true
}

} // verus!
