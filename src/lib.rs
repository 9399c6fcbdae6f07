pub mod error;
pub mod text;
pub mod header;
pub mod theorems;

use vstd::prelude::*;

pub use error::{Error, ShortRead};
pub use header::parse_header;

verus! {

/// A sequential source of bytes over an in-memory buffer.
///
/// Each read takes exactly the bytes it asks for from the front of what is left, or fails
/// and takes nothing when fewer bytes are left.
pub struct ByteReader<'a> {
    bytes: &'a [u8],
    pos: usize,
}

impl<'a> ByteReader<'a> {
    #[verifier::type_invariant]
    spec fn inv(&self) -> bool {
        self.pos <= self.bytes@.len()
    }

    /// The bytes that have not been read yet.
    pub closed spec fn view(&self) -> Seq<u8> {
        self.bytes@.subrange(self.pos as int, self.bytes@.len() as int)
    }

    /// The whole buffer that the reader reads from.
    pub closed spec fn source(&self) -> Seq<u8> {
        self.bytes@
    }

    /// How many bytes of the buffer have been read.
    pub closed spec fn position(&self) -> nat {
        self.pos as nat
    }

    /// A reader positioned at the first byte of `bytes`.
    pub fn new(bytes: &'a [u8]) -> (r: Self)
        ensures
            r@ == bytes@,
            r.source() == bytes@,
            r.position() == 0,
    {
        let r = ByteReader { bytes, pos: 0 };
        assert(r@ =~= bytes@);
        r
    }

    /// How many bytes are left to read.
    pub fn remaining(&self) -> (r: usize)
        ensures
            r == self@.len(),
    {
        proof {
            use_type_invariant(self);
        }
        self.bytes.len() - self.pos
    }
}

/// `after` reads the same buffer as `before`, at most `most` bytes further on.
pub open spec fn advanced(before: ByteReader, after: ByteReader, most: nat) -> bool {
    &&& after.source() == before.source()
    &&& before.position() <= after.position() <= before.position() + most
}

/// A fixed-width number that can be built from its big-endian bytes.
///
/// The const parameter `N` is the width in bytes of the implementing type.
pub trait FromBigEndian<const N: usize>: Sized {
    /// The value that the bytes `b` (most significant first) denote.
    spec fn spec_from_be(b: Seq<u8>) -> Self;

    fn from_be_bytes(bytes: [u8; N]) -> (r: Self)
        ensures
            r == Self::spec_from_be(bytes@),
    ;
}

/// Unsigned value of two bytes, most significant first.
pub open spec fn be_u16(b0: u8, b1: u8) -> u16 {
    (b0 * 0x100int + b1) as u16
}

/// Unsigned value of four bytes, most significant first.
pub open spec fn be_u32(b0: u8, b1: u8, b2: u8, b3: u8) -> u32 {
    (b0 * 0x100_0000int + b1 * 0x1_0000int + b2 * 0x100int + b3) as u32
}

impl FromBigEndian<1> for u8 {
    open spec fn spec_from_be(b: Seq<u8>) -> u8 {
        b[0]
    }

    fn from_be_bytes(bytes: [u8; 1]) -> (r: u8) {
        bytes[0]
    }
}

impl FromBigEndian<2> for u16 {
    open spec fn spec_from_be(b: Seq<u8>) -> u16 {
        be_u16(b[0], b[1])
    }

    fn from_be_bytes(bytes: [u8; 2]) -> (r: u16) {
        bytes[0] as u16 * 0x100 + bytes[1] as u16
    }
}

impl FromBigEndian<2> for i16 {
    /// Two's complement reading of the unsigned value.
    open spec fn spec_from_be(b: Seq<u8>) -> i16 {
        be_u16(b[0], b[1]) as i16
    }

    fn from_be_bytes(bytes: [u8; 2]) -> (r: i16) {
        let u = <u16 as FromBigEndian<2>>::from_be_bytes(bytes);
        u as i16
    }
}

impl FromBigEndian<4> for u32 {
    open spec fn spec_from_be(b: Seq<u8>) -> u32 {
        be_u32(b[0], b[1], b[2], b[3])
    }

    fn from_be_bytes(bytes: [u8; 4]) -> (r: u32) {
        bytes[0] as u32 * 0x100_0000 + bytes[1] as u32 * 0x1_0000 + bytes[2] as u32 * 0x100
            + bytes[3] as u32
    }
}

impl FromBigEndian<4> for i32 {
    /// Two's complement reading of the unsigned value.
    open spec fn spec_from_be(b: Seq<u8>) -> i32 {
        be_u32(b[0], b[1], b[2], b[3]) as i32
    }

    fn from_be_bytes(bytes: [u8; 4]) -> (r: i32) {
        let u = <u32 as FromBigEndian<4>>::from_be_bytes(bytes);
        u as i32
    }
}

/// Unsigned value of the two bytes of `s` at `i`.
pub open spec fn be_u16_at(s: Seq<u8>, i: int) -> u16 {
    be_u16(s[i], s[i + 1])
}

/// Unsigned value of the four bytes of `s` at `i`.
pub open spec fn be_u32_at(s: Seq<u8>, i: int) -> u32 {
    be_u32(s[i], s[i + 1], s[i + 2], s[i + 3])
}

/// Signed (two's complement) value of the four bytes of `s` at `i`.
pub open spec fn be_i32_at(s: Seq<u8>, i: int) -> i32 {
    be_u32_at(s, i) as i32
}

/// The outcome of reading a field of `width` bytes named `name` from `s`, whose value
/// would be `v`: the value when there are enough bytes, else the short read.
pub open spec fn field_read<T>(s: Seq<u8>, width: nat, name: &'static str, v: T) -> Result<T, Error> {
    if s.len() >= width {
        Ok(v)
    } else {
        Err(Error::IoError(short_of(s, width), name))
    }
}

/// What is left of `s` after a read of `width` bytes: the read takes nothing when it fails.
pub open spec fn after_read(s: Seq<u8>, width: nat) -> Seq<u8> {
    if s.len() >= width {
        s.skip(width as int)
    } else {
        s
    }
}

/// The error of a read that asked for `width` bytes where only `s.len()` were left.
pub open spec fn short_of(s: Seq<u8>, width: nat) -> ShortRead {
    ShortRead { requested: width as usize, available: s.len() as usize }
}

/// Read `N` bytes from the reader into a new array.
fn read_bytes<const N: usize>(reader: &mut ByteReader) -> (r: Result<[u8; N], ShortRead>)
    ensures
        old(reader)@.len() >= N ==> (r matches Ok(a) && a@ == old(reader)@.take(N as int))
            && final(reader)@ == old(reader)@.skip(N as int),
        old(reader)@.len() < N ==> r == Err::<[u8; N], ShortRead>(short_of(old(reader)@, N as nat))
            && final(reader)@ == old(reader)@,
        advanced(*old(reader), *final(reader), N as nat),
{
    proof {
        use_type_invariant(&*reader);
    }
    let len = reader.bytes.len();
    let available = len - reader.pos;
    if available < N {
        return Err(ShortRead { requested: N, available });
    }
    let mut ret = [0u8; N];
    let mut i: usize = 0;
    while i < N
        invariant
            0 <= i <= N,
            reader.pos + N <= len,
            len == reader.bytes@.len(),
            ret@.len() == N,
            forall|j: int| 0 <= j < i ==> ret@[j] == reader.bytes@[reader.pos + j],
        decreases N - i,
    {
        ret[i] = reader.bytes[reader.pos + i];
        i += 1;
    }
    reader.pos = reader.pos + N;
    assert(ret@ =~= old(reader)@.take(N as int));
    assert(reader@ =~= old(reader)@.skip(N as int));
    Ok(ret)
}

/// Read the number of bytes needed to build a `T` and convert them with its
/// `FromBigEndian` implementation.
fn read<T, const N: usize>(reader: &mut ByteReader) -> (r: Result<T, ShortRead>)
    where
        T: FromBigEndian<N>,
    ensures
        old(reader)@.len() >= N ==> r == Ok::<T, ShortRead>(T::spec_from_be(old(reader)@.take(N as int)))
            && final(reader)@ == old(reader)@.skip(N as int),
        old(reader)@.len() < N ==> r == Err::<T, ShortRead>(short_of(old(reader)@, N as nat))
            && final(reader)@ == old(reader)@,
        advanced(*old(reader), *final(reader), N as nat),
{
    let bytes = read_bytes::<N>(reader)?;
    Ok(T::from_be_bytes(bytes))
}

fn read_u32(reader: &mut ByteReader, name: &'static str) -> (r: Result<u32, Error>)
    ensures
        r == field_read(old(reader)@, 4, name, be_u32_at(old(reader)@, 0)),
        final(reader)@ == after_read(old(reader)@, 4),
        advanced(*old(reader), *final(reader), 4),
{
    match read::<u32, 4>(reader) {
        Ok(v) => Ok(v),
        Err(e) => Err(Error::IoError(e, name)),
    }
}

fn read_i32(reader: &mut ByteReader, name: &'static str) -> (r: Result<i32, Error>)
    ensures
        r == field_read(old(reader)@, 4, name, be_i32_at(old(reader)@, 0)),
        final(reader)@ == after_read(old(reader)@, 4),
        advanced(*old(reader), *final(reader), 4),
{
    match read::<i32, 4>(reader) {
        Ok(v) => Ok(v),
        Err(e) => Err(Error::IoError(e, name)),
    }
}

fn read_u16(reader: &mut ByteReader, name: &'static str) -> (r: Result<u16, Error>)
    ensures
        r == field_read(old(reader)@, 2, name, be_u16_at(old(reader)@, 0)),
        final(reader)@ == after_read(old(reader)@, 2),
        advanced(*old(reader), *final(reader), 2),
{
    match read::<u16, 2>(reader) {
        Ok(v) => Ok(v),
        Err(e) => Err(Error::IoError(e, name)),
    }
}

fn read_u8(reader: &mut ByteReader, name: &'static str) -> (r: Result<u8, Error>)
    ensures
        r == field_read(old(reader)@, 1, name, old(reader)@[0]),
        final(reader)@ == after_read(old(reader)@, 1),
        advanced(*old(reader), *final(reader), 1),
{
    match read::<u8, 1>(reader) {
        Ok(v) => Ok(v),
        Err(e) => Err(Error::IoError(e, name)),
    }
}

} // verus!
