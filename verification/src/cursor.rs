//! In-memory streams: a reader over a byte vector and a writer into one.
//!
//! [`ByteReader`] yields the bytes of a vector in order; [`ByteWriter`]
//! collects bytes into a vector, refusing to grow past an optional limit.
//! They are the verified byte source and byte sink of the crate.

use vstd::prelude::*;

use crate::binary_read::BinaryRead;
use crate::binary_write::BinaryWrite;
use crate::endian::Endian;
use crate::error::IoError;
use crate::file_read::FileRead;
use crate::file_write::FileWrite;
use crate::read_integer::ReadInteger;
use crate::seek::Seek;
use crate::seek::SeekFrom;
use crate::stream::overwrite;
use crate::stream::ByteSink;
use crate::stream::ByteSource;
use crate::write_integer::encoded_seq;
use crate::write_integer::lemma_encoded_seq_len;
use crate::write_integer::WriteInteger;

verus! {

/// The bytes of `data` extended with zeros up to length `p` (or `data`
/// itself where it is already that long).
spec fn zero_extended(data: Seq<u8>, p: int) -> Seq<u8> {
    Seq::new(
        if data.len() >= p {
            data.len()
        } else {
            p as nat
        },
        |i: int|
            if i < data.len() {
                data[i]
            } else {
                0u8
            },
    )
}

/// A sequential reader over an in-memory byte vector.
pub struct ByteReader {
    inner: Vec<u8>,
    offset: usize,
}

impl ByteReader {
    /// Creates a reader positioned at the start of `data`.
    pub fn new(data: Vec<u8>) -> (r: ByteReader)
        ensures
            r.data() == data@,
            r.pos() == 0,
    {
        ByteReader { inner: data, offset: 0 }
    }

    /// The current read position, in bytes from the start of the stream.
    pub fn stream_position(&self) -> (r: usize)
        ensures
            r as nat == self.pos(),
    {
        self.offset
    }

    /// Consumes the reader and returns the underlying bytes.
    pub fn into_inner(self) -> (r: Vec<u8>)
        ensures
            r@ == self.data(),
    {
        self.inner
    }
}

impl ByteSource for ByteReader {
    closed spec fn data(&self) -> Seq<u8> {
        self.inner@
    }

    closed spec fn pos(&self) -> nat {
        self.offset as nat
    }

    fn read_exact(&mut self, byte_count: usize) -> (r: Result<Vec<u8>, IoError>) {
        if byte_count == 0 {
            return Ok(Vec::new());
        }
        if self.offset > self.inner.len() || byte_count > self.inner.len() - self.offset {
            return Err(IoError::UnexpectedEof);
        }
        let mut buf: Vec<u8> = Vec::new();
        let mut j: usize = 0;
        while j < byte_count
            invariant
                j <= byte_count,
                self.inner@ == old(self).inner@,
                self.offset == old(self).offset,
                self.offset + byte_count <= self.inner@.len(),
                self.inner@.len() <= usize::MAX,
                buf@.len() == j,
                forall|i: int| 0 <= i < j ==> buf@[i] == self.inner@[self.offset + i],
            decreases byte_count - j,
        {
            buf.push(self.inner[self.offset + j]);
            j = j + 1;
        }
        self.offset = self.offset + byte_count;
        proof {
            assert(buf@ =~= old(self).inner@.subrange(
                old(self).offset as int,
                old(self).offset + byte_count,
            ));
        }
        Ok(buf)
    }
}

impl BinaryRead for ByteReader {
    fn read_byte_array(&mut self, byte_count: usize) -> (r: Result<Vec<u8>, IoError>) {
        self.read_exact(byte_count)
    }

    fn read_integer<TEndian: Endian, TInt: ReadInteger<OutputType = TInt>>(&mut self) -> (r: Result<
        TInt,
        IoError,
    >) {
        TInt::read_integer::<TEndian, ByteReader>(self)
    }

    fn read_integer_array<TEndian: Endian, TInt: ReadInteger<OutputType = TInt>>(
        &mut self,
        element_count: usize,
    ) -> (r: Result<Vec<TInt>, IoError>) {
        let ghost w: int = TInt::width() as int;
        proof {
            TInt::width_positive();
        }
        let mut values: Vec<TInt> = Vec::new();
        let mut i: usize = 0;
        while i < element_count
            invariant
                i <= element_count,
                w == TInt::width(),
                w > 0,
                self.inner@ == old(self).inner@,
                self.offset as int == old(self).offset + i * w,
                i > 0 ==> self.offset <= self.inner@.len(),
                values@.len() == i,
                forall|k: int|
                    0 <= k < i ==> values@[k] == TInt::decoded(
                        TEndian::is_big_endian(),
                        old(self).inner@.subrange(
                            old(self).offset + k * w,
                            old(self).offset + (k + 1) * w,
                        ),
                    ),
            decreases element_count - i,
        {
            proof {
                assert((i + 1) * w == i * w + w) by (nonlinear_arith);
            }
            match TInt::read_integer::<TEndian, ByteReader>(self) {
                Ok(v) => {
                    values.push(v);
                },
                Err(_) => {
                    proof {
                        let k = i as nat;
                        assert(k < element_count && final(self).pos() == old(self).pos() + k
                            * TInt::width() && old(self).pos() + (k + 1) * TInt::width() > old(
                            self,
                        ).data().len());
                        assert((i + 1) * w <= element_count * w) by (nonlinear_arith)
                            requires
                                i + 1 <= element_count,
                                w > 0,
                        ;
                    }
                    return Err(IoError::UnexpectedEof);
                },
            }
            i = i + 1;
        }
        proof {
            if element_count > 0 {
                assert(element_count * w >= 1 * w) by (nonlinear_arith)
                    requires
                        element_count >= 1,
                        w > 0,
                ;
            }
        }
        Ok(values)
    }
}

/// Adds `delta` to a position, refusing a result below zero or above the
/// largest machine offset.
fn seek_add(base: usize, delta: i64) -> (r: Option<usize>)
    ensures
        r is Some <==> 0 <= base + delta <= usize::MAX,
        (r matches Some(t) ==> t as int == base + delta),
{
    if delta >= 0 {
        let d = delta as u64;
        if d <= (usize::MAX - base) as u64 {
            Some(base + (d as usize))
        } else {
            None
        }
    } else {
        let magnitude = ((-(delta + 1)) as u64) + 1;
        if magnitude <= base as u64 {
            Some(base - (magnitude as usize))
        } else {
            None
        }
    }
}

impl Seek for ByteReader {
    closed spec fn stream_data(&self) -> Seq<u8> {
        self.inner@
    }

    closed spec fn position(&self) -> nat {
        self.offset as nat
    }

    fn seek(&mut self, from: SeekFrom) -> (r: Result<u64, IoError>) {
        let target: Option<usize> = match from {
            SeekFrom::Start(offset) => {
                if offset <= usize::MAX as u64 {
                    Some(offset as usize)
                } else {
                    None
                }
            },
            SeekFrom::Current(delta) => seek_add(self.offset, delta),
            SeekFrom::End(delta) => seek_add(self.inner.len(), delta),
        };
        match target {
            Some(t) => {
                self.offset = t;
                Ok(t as u64)
            },
            None => Err(IoError::InvalidSeek),
        }
    }
}

impl FileRead for ByteReader {
    proof fn views_agree(&self) {
    }
}

/// A sequential writer into an in-memory byte vector, refusing to grow
/// past a size limit.
pub struct ByteWriter {
    inner: Vec<u8>,
    offset: usize,
    cap: usize,
}

impl ByteWriter {
    /// Creates an empty writer whose limit is the largest vector size.
    pub fn new() -> (r: ByteWriter)
        ensures
            r.data() == Seq::<u8>::empty(),
            r.pos() == 0,
            r.limit() == usize::MAX,
    {
        ByteWriter { inner: Vec::new(), offset: 0, cap: usize::MAX }
    }

    /// Creates an empty writer that refuses to grow past `limit` bytes.
    pub fn with_limit(limit: usize) -> (r: ByteWriter)
        ensures
            r.data() == Seq::<u8>::empty(),
            r.pos() == 0,
            r.limit() == limit,
    {
        ByteWriter { inner: Vec::new(), offset: 0, cap: limit }
    }

    /// The current write position, in bytes from the start of the sink.
    pub fn stream_position(&self) -> (r: usize)
        ensures
            r as nat == self.pos(),
    {
        self.offset
    }

    /// Consumes the writer and returns the bytes written.
    pub fn into_inner(self) -> (r: Vec<u8>)
        ensures
            r@ == self.data(),
    {
        self.inner
    }
}

impl ByteSink for ByteWriter {
    closed spec fn data(&self) -> Seq<u8> {
        self.inner@
    }

    closed spec fn pos(&self) -> nat {
        self.offset as nat
    }

    closed spec fn limit(&self) -> nat {
        self.cap as nat
    }

    fn write_all(&mut self, bytes: &[u8]) -> (r: Result<(), IoError>) {
        let n = bytes.len();
        if n == 0 {
            return Ok(());
        }
        if self.offset > self.cap || n > self.cap - self.offset {
            return Err(IoError::LimitExceeded);
        }
        while self.inner.len() < self.offset
            invariant
                self.offset == old(self).offset,
                self.cap == old(self).cap,
                self.inner@.len() >= old(self).inner@.len(),
                self.inner@.len() > old(self).inner@.len() ==> self.inner@.len() <= self.offset,
                self.inner@ == zero_extended(old(self).inner@, self.inner@.len() as int),
            decreases self.offset - self.inner.len(),
        {
            self.inner.push(0u8);
            proof {
                assert(self.inner@ =~= zero_extended(old(self).inner@, self.inner@.len() as int));
            }
        }
        proof {
            assert(self.inner@ =~= zero_extended(old(self).inner@, self.offset as int));
        }
        let ghost od = old(self).inner@;
        let ghost pos = self.offset as int;
        let mut j: usize = 0;
        while j < n
            invariant
                j <= n,
                n == bytes@.len(),
                n >= 1,
                self.offset == old(self).offset,
                self.cap == old(self).cap,
                pos == self.offset as int,
                od == old(self).inner@,
                self.offset + n <= self.cap,
                self.inner@ == (if j == 0 {
                    zero_extended(od, pos)
                } else {
                    overwrite(od, pos, bytes@.take(j as int))
                }),
            decreases n - j,
        {
            let b = bytes[j];
            if self.offset + j < self.inner.len() {
                self.inner[self.offset + j] = b;
            } else {
                self.inner.push(b);
            }
            j = j + 1;
            proof {
                assert(self.inner@ =~= overwrite(od, pos, bytes@.take(j as int)));
            }
        }
        proof {
            assert(bytes@.take(n as int) =~= bytes@);
        }
        self.offset = self.offset + n;
        Ok(())
    }
}

impl BinaryWrite for ByteWriter {
    fn write_integer<TEndian: Endian, TInt: WriteInteger>(&mut self, value: TInt) -> (r: Result<
        (),
        IoError,
    >) {
        value.write_integer::<TEndian, ByteWriter>(self)
    }

    fn write_integer_array<TEndian: Endian, TInt: WriteInteger>(&mut self, values: &[TInt]) -> (r:
        Result<(), IoError>) {
        let ghost w: int = TInt::width() as int;
        let ghost big = TEndian::is_big_endian();
        proof {
            TInt::width_positive();
        }
        let n = values.len();
        let mut i: usize = 0;
        while i < n
            invariant
                i <= n,
                n == values@.len(),
                w == TInt::width(),
                w > 0,
                big == TEndian::is_big_endian(),
                self.cap == old(self).cap,
                self.offset as int == old(self).offset + i * w,
                i > 0 ==> self.offset <= self.cap,
                self.inner@ == overwrite(
                    old(self).inner@,
                    old(self).offset as int,
                    encoded_seq(values@.take(i as int), big),
                ),
            decreases n - i,
        {
            proof {
                assert((i + 1) * w == i * w + w) by (nonlinear_arith);
                lemma_encoded_seq_len::<TInt>(values@.take(i as int), big);
            }
            let x = &values[i];
            let ghost ei = encoded_seq(values@.take(i as int), big);
            match x.write_integer::<TEndian, ByteWriter>(self) {
                Ok(_) => {
                    proof {
                        let e = values@[i as int].encoded(big);
                        crate::stream::lemma_overwrite_concat(
                            old(self).inner@,
                            old(self).offset as int,
                            ei,
                            e,
                        );
                        assert(values@.take((i + 1) as int).drop_last() =~= values@.take(i as int));
                        assert(values@.take((i + 1) as int).last() == values@[i as int]);
                        assert(encoded_seq(values@.take((i + 1) as int), big) == ei + e);
                    }
                },
                Err(_) => {
                    proof {
                        let k = i as nat;
                        assert(k < values@.len() && final(self).pos() == old(self).pos() + k
                            * TInt::width() && final(self).data() == overwrite(
                            old(self).data(),
                            old(self).pos() as int,
                            encoded_seq(values@.take(k as int), TEndian::is_big_endian()),
                        ) && old(self).pos() + (k + 1) * TInt::width() > old(self).limit());
                        assert((i + 1) * w <= n * w) by (nonlinear_arith)
                            requires
                                i + 1 <= n,
                                w > 0,
                        ;
                    }
                    return Err(IoError::LimitExceeded);
                },
            }
            i = i + 1;
        }
        proof {
            assert(values@.take(n as int) =~= values@);
        }
        Ok(())
    }
}

impl Seek for ByteWriter {
    closed spec fn stream_data(&self) -> Seq<u8> {
        self.inner@
    }

    closed spec fn position(&self) -> nat {
        self.offset as nat
    }

    fn seek(&mut self, from: SeekFrom) -> (r: Result<u64, IoError>) {
        let target: Option<usize> = match from {
            SeekFrom::Start(offset) => {
                if offset <= usize::MAX as u64 {
                    Some(offset as usize)
                } else {
                    None
                }
            },
            SeekFrom::Current(delta) => seek_add(self.offset, delta),
            SeekFrom::End(delta) => seek_add(self.inner.len(), delta),
        };
        match target {
            Some(t) => {
                self.offset = t;
                Ok(t as u64)
            },
            None => Err(IoError::InvalidSeek),
        }
    }
}

impl FileWrite for ByteWriter {
    proof fn views_agree(&self) {
    }
}

} // verus!
