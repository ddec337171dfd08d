//! Sequential byte reader: a borrowed byte buffer plus a forward-only
//! cursor, with typed little-endian reads, fixed-size string reads,
//! absolute-offset peeks, skips and slicing.
//!
//! Every access is bounds-checked: a range that falls outside the buffer
//! yields [`DecodeError::TruncatedInput`] and leaves the cursor where it
//! was, so a truncated input is a reported error, never a panic.

use vstd::bytes::{
    spec_u16_from_le_bytes, spec_u32_from_le_bytes, spec_u64_from_le_bytes, u16_from_le_bytes,
    u32_from_le_bytes, u64_from_le_bytes,
};
use vstd::prelude::*;
use vstd::slice::slice_subrange;

use crate::error::DecodeError;

verus! {

/// Sequence of characters that `String::from_utf8_lossy` decodes the given
/// bytes to: UTF-8 with every malformed sequence replaced. A function of
/// the bytes alone; its exact value is not spelled out here.
pub uninterp spec fn lossy_utf8(bytes: Seq<u8>) -> Seq<char>;

/// Relies on String::from_utf8_lossy: decodes the bytes as UTF-8,
/// replacing malformed sequences with U+FFFD; the result depends on the
/// bytes alone.
#[verifier::external_body]
fn utf8_lossy(bytes: &[u8]) -> (r: String)
    ensures
        r@ == lossy_utf8(bytes@),
{
    String::from_utf8_lossy(bytes).into_owned()
}

/// A byte buffer with a forward-only read cursor.
///
/// The cursor never lies outside the buffer: it starts inside it and no
/// operation moves it past the end.
pub struct DataReader<'a> {
    data: &'a [u8],
    offset: usize,
}

impl<'a> DataReader<'a> {
    /// The wrapped buffer.
    pub closed spec fn spec_data(&self) -> Seq<u8> {
        self.data@
    }

    /// The cursor: how many bytes have been consumed.
    pub closed spec fn spec_offset(&self) -> int {
        self.offset as int
    }

    /// The cursor stays inside the buffer (one past the last byte at most).
    pub open spec fn wf(&self) -> bool {
        0 <= self.spec_offset() <= self.spec_data().len()
    }

    /// A reader over `data` with the cursor at the first byte.
    pub fn new(data: &'a [u8]) -> (r: DataReader<'a>)
        ensures
            r.spec_data() == data@,
            r.spec_offset() == 0,
            r.wf(),
    {
        DataReader::new_with_offset(data, 0)
    }

    /// A reader over `data` with the cursor already at `offset`.
    pub fn new_with_offset(data: &'a [u8], offset: usize) -> (r: DataReader<'a>)
        requires
            offset <= data@.len(),
        ensures
            r.spec_data() == data@,
            r.spec_offset() == offset,
            r.wf(),
    {
        DataReader { data, offset }
    }

    /// Consumes the next `n` bytes and returns them as a slice, or reports
    /// truncation, moving nothing, when fewer than `n` bytes remain.
    fn take(&mut self, n: usize) -> (r: Result<&'a [u8], DecodeError>)
        requires
            old(self).wf(),
        ensures
            final(self).wf(),
            final(self).spec_data() == old(self).spec_data(),
            old(self).spec_offset() + n <= old(self).spec_data().len() ==> {
                &&& final(self).spec_offset() == old(self).spec_offset() + n
                &&& r matches Ok(s) && s@ == old(self).spec_data().subrange(
                    old(self).spec_offset(),
                    old(self).spec_offset() + n,
                )
            },
            old(self).spec_offset() + n > old(self).spec_data().len() ==> {
                &&& final(self).spec_offset() == old(self).spec_offset()
                &&& r matches Err(e) && e == DecodeError::TruncatedInput
            },
    {
        if n <= self.data.len() - self.offset {
            let s = slice_subrange(self.data, self.offset, self.offset + n);
            self.offset = self.offset + n;
            Ok(s)
        } else {
            Err(DecodeError::TruncatedInput)
        }
    }

    /// Consumes `size` bytes and decodes them as UTF-8, lossily: malformed
    /// sequences become replacement characters instead of failing.
    pub fn read_utf8_string(&mut self, size: usize) -> (r: Result<String, DecodeError>)
        requires
            old(self).wf(),
        ensures
            final(self).wf(),
            final(self).spec_data() == old(self).spec_data(),
            old(self).spec_offset() + size <= old(self).spec_data().len() ==> {
                &&& final(self).spec_offset() == old(self).spec_offset() + size
                &&& r matches Ok(s) && s@ == lossy_utf8(
                    old(self).spec_data().subrange(
                        old(self).spec_offset(),
                        old(self).spec_offset() + size,
                    ),
                )
            },
            old(self).spec_offset() + size > old(self).spec_data().len() ==> {
                &&& final(self).spec_offset() == old(self).spec_offset()
                &&& r matches Err(e) && e == DecodeError::TruncatedInput
            },
    {
        let bytes = self.take(size)?;
        Ok(utf8_lossy(bytes))
    }

    /// Consumes 8 bytes as a little-endian unsigned value.
    pub fn read_u64(&mut self) -> (r: Result<u64, DecodeError>)
        requires
            old(self).wf(),
        ensures
            final(self).wf(),
            final(self).spec_data() == old(self).spec_data(),
            old(self).spec_offset() + 8 <= old(self).spec_data().len() ==> {
                &&& final(self).spec_offset() == old(self).spec_offset() + 8
                &&& r == Ok::<u64, DecodeError>(spec_u64_from_le_bytes(
                    old(self).spec_data().subrange(
                        old(self).spec_offset(),
                        old(self).spec_offset() + 8,
                    ),
                ))
            },
            old(self).spec_offset() + 8 > old(self).spec_data().len() ==> {
                &&& final(self).spec_offset() == old(self).spec_offset()
                &&& r == Err::<u64, DecodeError>(DecodeError::TruncatedInput)
            },
    {
        let bytes = self.take(8)?;
        Ok(u64_from_le_bytes(bytes))
    }

    /// Consumes 4 bytes as a little-endian unsigned value.
    pub fn read_u32(&mut self) -> (r: Result<u32, DecodeError>)
        requires
            old(self).wf(),
        ensures
            final(self).wf(),
            final(self).spec_data() == old(self).spec_data(),
            old(self).spec_offset() + 4 <= old(self).spec_data().len() ==> {
                &&& final(self).spec_offset() == old(self).spec_offset() + 4
                &&& r == Ok::<u32, DecodeError>(spec_u32_from_le_bytes(
                    old(self).spec_data().subrange(
                        old(self).spec_offset(),
                        old(self).spec_offset() + 4,
                    ),
                ))
            },
            old(self).spec_offset() + 4 > old(self).spec_data().len() ==> {
                &&& final(self).spec_offset() == old(self).spec_offset()
                &&& r == Err::<u32, DecodeError>(DecodeError::TruncatedInput)
            },
    {
        let bytes = self.take(4)?;
        Ok(u32_from_le_bytes(bytes))
    }

    /// Consumes 4 bytes as a little-endian signed value: the unsigned
    /// little-endian value reinterpreted in two's complement.
    pub fn read_i32(&mut self) -> (r: Result<i32, DecodeError>)
        requires
            old(self).wf(),
        ensures
            final(self).wf(),
            final(self).spec_data() == old(self).spec_data(),
            old(self).spec_offset() + 4 <= old(self).spec_data().len() ==> {
                &&& final(self).spec_offset() == old(self).spec_offset() + 4
                &&& r == Ok::<i32, DecodeError>(spec_u32_from_le_bytes(
                    old(self).spec_data().subrange(
                        old(self).spec_offset(),
                        old(self).spec_offset() + 4,
                    ),
                ) as i32)
            },
            old(self).spec_offset() + 4 > old(self).spec_data().len() ==> {
                &&& final(self).spec_offset() == old(self).spec_offset()
                &&& r == Err::<i32, DecodeError>(DecodeError::TruncatedInput)
            },
    {
        let bytes = self.take(4)?;
        let u = u32_from_le_bytes(bytes);
        Ok(#[verifier::truncate] (u as i32))
    }

    /// Consumes 2 bytes as a little-endian unsigned value.
    pub fn read_u16(&mut self) -> (r: Result<u16, DecodeError>)
        requires
            old(self).wf(),
        ensures
            final(self).wf(),
            final(self).spec_data() == old(self).spec_data(),
            old(self).spec_offset() + 2 <= old(self).spec_data().len() ==> {
                &&& final(self).spec_offset() == old(self).spec_offset() + 2
                &&& r == Ok::<u16, DecodeError>(spec_u16_from_le_bytes(
                    old(self).spec_data().subrange(
                        old(self).spec_offset(),
                        old(self).spec_offset() + 2,
                    ),
                ))
            },
            old(self).spec_offset() + 2 > old(self).spec_data().len() ==> {
                &&& final(self).spec_offset() == old(self).spec_offset()
                &&& r == Err::<u16, DecodeError>(DecodeError::TruncatedInput)
            },
    {
        let bytes = self.take(2)?;
        Ok(u16_from_le_bytes(bytes))
    }

    /// Consumes 2 bytes as a little-endian signed value: the unsigned
    /// little-endian value reinterpreted in two's complement.
    pub fn read_i16(&mut self) -> (r: Result<i16, DecodeError>)
        requires
            old(self).wf(),
        ensures
            final(self).wf(),
            final(self).spec_data() == old(self).spec_data(),
            old(self).spec_offset() + 2 <= old(self).spec_data().len() ==> {
                &&& final(self).spec_offset() == old(self).spec_offset() + 2
                &&& r == Ok::<i16, DecodeError>(spec_u16_from_le_bytes(
                    old(self).spec_data().subrange(
                        old(self).spec_offset(),
                        old(self).spec_offset() + 2,
                    ),
                ) as i16)
            },
            old(self).spec_offset() + 2 > old(self).spec_data().len() ==> {
                &&& final(self).spec_offset() == old(self).spec_offset()
                &&& r == Err::<i16, DecodeError>(DecodeError::TruncatedInput)
            },
    {
        let bytes = self.take(2)?;
        let u = u16_from_le_bytes(bytes);
        Ok(#[verifier::truncate] (u as i16))
    }

    /// Consumes the next byte.
    pub fn read_u8(&mut self) -> (r: Result<u8, DecodeError>)
        requires
            old(self).wf(),
        ensures
            final(self).wf(),
            final(self).spec_data() == old(self).spec_data(),
            old(self).spec_offset() + 1 <= old(self).spec_data().len() ==> {
                &&& final(self).spec_offset() == old(self).spec_offset() + 1
                &&& r == Ok::<u8, DecodeError>(old(self).spec_data()[old(self).spec_offset()])
            },
            old(self).spec_offset() + 1 > old(self).spec_data().len() ==> {
                &&& final(self).spec_offset() == old(self).spec_offset()
                &&& r == Err::<u8, DecodeError>(DecodeError::TruncatedInput)
            },
    {
        if self.offset < self.data.len() {
            let b = *vstd::slice::slice_index_get(self.data, self.offset);
            self.offset = self.offset + 1;
            Ok(b)
        } else {
            Err(DecodeError::TruncatedInput)
        }
    }

    /// Reads the byte at an absolute offset without moving the cursor.
    pub fn read_u8_at(&self, offset: usize) -> (r: Result<u8, DecodeError>)
        ensures
            offset < self.spec_data().len() ==> r == Ok::<u8, DecodeError>(
                self.spec_data()[offset as int],
            ),
            offset >= self.spec_data().len() ==> r == Err::<u8, DecodeError>(
                DecodeError::TruncatedInput,
            ),
    {
        if offset < self.data.len() {
            Ok(*vstd::slice::slice_index_get(self.data, offset))
        } else {
            Err(DecodeError::TruncatedInput)
        }
    }

    /// Consumes 2 bytes as a little-endian value; the result is `false`
    /// exactly when that value is zero.
    pub fn read_bool(&mut self) -> (r: Result<bool, DecodeError>)
        requires
            old(self).wf(),
        ensures
            final(self).wf(),
            final(self).spec_data() == old(self).spec_data(),
            old(self).spec_offset() + 2 <= old(self).spec_data().len() ==> {
                &&& final(self).spec_offset() == old(self).spec_offset() + 2
                &&& r == Ok::<bool, DecodeError>(spec_u16_from_le_bytes(
                    old(self).spec_data().subrange(
                        old(self).spec_offset(),
                        old(self).spec_offset() + 2,
                    ),
                ) != 0)
            },
            old(self).spec_offset() + 2 > old(self).spec_data().len() ==> {
                &&& final(self).spec_offset() == old(self).spec_offset()
                &&& r == Err::<bool, DecodeError>(DecodeError::TruncatedInput)
            },
    {
        let u = self.read_u16()?;
        Ok(u != 0)
    }

    /// The bytes not yet consumed: everything from the cursor to the end.
    pub fn unread_bytes(&self) -> (r: &'a [u8])
        requires
            self.wf(),
        ensures
            r@ == self.spec_data().subrange(self.spec_offset(), self.spec_data().len() as int),
    {
        slice_subrange(self.data, self.offset, self.data.len())
    }

    /// The bytes in the absolute range `start..end`, or a truncation
    /// report when the range does not lie inside the buffer.
    pub fn slice(&self, start: usize, end: usize) -> (r: Result<&'a [u8], DecodeError>)
        ensures
            start <= end <= self.spec_data().len() ==> (r matches Ok(s) && s@
                == self.spec_data().subrange(start as int, end as int)),
            !(start <= end <= self.spec_data().len()) ==> r == Err::<&[u8], DecodeError>(
                DecodeError::TruncatedInput,
            ),
    {
        if start <= end && end <= self.data.len() {
            Ok(slice_subrange(self.data, start, end))
        } else {
            Err(DecodeError::TruncatedInput)
        }
    }

    /// Advances the cursor `bytes` bytes without reading, or reports
    /// truncation, moving nothing, when fewer bytes remain.
    pub fn skip(&mut self, bytes: usize) -> (r: Result<(), DecodeError>)
        requires
            old(self).wf(),
        ensures
            final(self).wf(),
            final(self).spec_data() == old(self).spec_data(),
            old(self).spec_offset() + bytes <= old(self).spec_data().len() ==> {
                &&& final(self).spec_offset() == old(self).spec_offset() + bytes
                &&& r == Ok::<(), DecodeError>(())
            },
            old(self).spec_offset() + bytes > old(self).spec_data().len() ==> {
                &&& final(self).spec_offset() == old(self).spec_offset()
                &&& r == Err::<(), DecodeError>(DecodeError::TruncatedInput)
            },
    {
        if bytes <= self.data.len() - self.offset {
            self.offset = self.offset + bytes;
            Ok(())
        } else {
            Err(DecodeError::TruncatedInput)
        }
    }

    /// The current cursor position.
    pub fn offset(&self) -> (r: usize)
        ensures
            r == self.spec_offset(),
    {
        self.offset
    }
}

} // verus!
