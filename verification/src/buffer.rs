//! Size-tracked GPU buffers.
//!
//! A [`ManagedBuffer`] describes one GPU allocation: which allocation it is,
//! how many bytes it holds and what it may be used for. The allocation itself
//! lives with the graphics backend; the checks that guard every write and every
//! read live here.

use vstd::prelude::*;
use vstd::bytes::{spec_u32_from_le_bytes, spec_u32_to_le_bytes, u32_from_le_bytes, u32_to_le_bytes};
use vstd::layout::size_of;
use crate::error::APURRendererError;

verus! {

/// The buffer may be mapped for reading.
pub const MAP_READ: u32 = 1;
/// The buffer may be mapped for writing.
pub const MAP_WRITE: u32 = 2;
/// The buffer may be the source of a copy.
pub const COPY_SRC: u32 = 4;
/// The buffer may be the destination of a copy or of a queued write.
pub const COPY_DST: u32 = 8;
/// The buffer may hold indices of a draw.
pub const INDEX: u32 = 16;
/// The buffer may hold vertices of a draw.
pub const VERTEX: u32 = 32;
/// The buffer may be bound as uniform data.
pub const UNIFORM: u32 = 64;
/// The buffer may be bound as storage data.
pub const STORAGE: u32 = 128;
/// The buffer may hold the arguments of an indirect draw.
pub const INDIRECT: u32 = 256;

/// Number of bytes of one 32-bit word.
pub const WORD_BYTES: usize = 4;

/// A set of buffer capabilities, one bit each.
#[derive(Debug, Clone, Copy, PartialEq, Eq, Structural)]
pub struct BufferUsage {
    pub bits: u32,
}

impl BufferUsage {
    /// Whether every capability of `other` is in `self`.
    pub open spec fn has(self, other: BufferUsage) -> bool {
        self.bits & other.bits == other.bits
    }

    pub fn from_bits(bits: u32) -> (usage: Self)
        ensures
            usage.bits == bits,
    {
        BufferUsage { bits }
    }

    pub fn bits(&self) -> (bits: u32)
        ensures
            bits == self.bits,
    {
        self.bits
    }

    /// The capabilities of either set.
    pub fn union(self, other: BufferUsage) -> (usage: Self)
        ensures
            usage.bits == self.bits | other.bits,
            usage.has(self),
            usage.has(other),
    {
        let a: u32 = self.bits;
        let b: u32 = other.bits;
        assert((a | b) & a == a) by (bit_vector);
        assert((a | b) & b == b) by (bit_vector);
        BufferUsage { bits: a | b }
    }

    pub fn contains(&self, other: BufferUsage) -> (yes: bool)
        ensures
            yes == self.has(other),
    {
        self.bits & other.bits == other.bits
    }
}

/// A write that passed the buffer's checks: `size` bytes go to `buffer`,
/// starting `offset` bytes into it.
#[derive(Debug, Clone, Copy, PartialEq, Eq, Structural)]
pub struct BufferWrite {
    pub buffer: u64,
    pub offset: u64,
    pub size: u64,
}

/// A read that passed the buffer's checks and waits for its mapping: the
/// first `size_bytes` bytes of `buffer` are to be mapped for reading.
#[derive(Debug, Clone, Copy, PartialEq, Eq, Structural)]
pub struct PendingRead {
    pub buffer: u64,
    pub size_bytes: usize,
}

/// The bytes of `words`, each word little-endian, in order.
pub open spec fn spec_pack_words(words: Seq<u32>) -> Seq<u8>
    decreases words.len(),
{
    if words.len() == 0 {
        Seq::empty()
    } else {
        spec_pack_words(words.drop_last()) + spec_u32_to_le_bytes(words.last())
    }
}

/// The words that `bytes` hold, four bytes each, little-endian; what is left
/// of an incomplete last word is ignored.
pub open spec fn spec_unpack_words(bytes: Seq<u8>) -> Seq<u32> {
    Seq::new((bytes.len() / 4) as nat, |i: int| spec_u32_from_le_bytes(bytes.subrange(4 * i, 4 * i + 4)))
}

/// Packing `n` words gives `4 * n` bytes, and word `i` lies at bytes `4 * i .. 4 * i + 4`.
pub proof fn lemma_pack_words_layout(words: Seq<u32>)
    ensures
        spec_pack_words(words).len() == 4 * words.len(),
        forall|i: int|
            0 <= i < words.len() ==> #[trigger] spec_pack_words(words).subrange(4 * i, 4 * i + 4)
                == spec_u32_to_le_bytes(words[i]),
    decreases words.len(),
{
    vstd::bytes::lemma_auto_spec_u32_to_from_le_bytes();
    if words.len() > 0 {
        let front = words.drop_last();
        lemma_pack_words_layout(front);
        let packed = spec_pack_words(words);
        let n = front.len() as int;
        assert forall|i: int| 0 <= i < words.len() implies #[trigger] packed.subrange(
            4 * i,
            4 * i + 4,
        ) == spec_u32_to_le_bytes(words[i]) by {
            if i < n {
                assert(packed.subrange(4 * i, 4 * i + 4) =~= spec_pack_words(front).subrange(
                    4 * i,
                    4 * i + 4,
                ));
                assert(front[i] == words[i]);
            } else {
                assert(packed.subrange(4 * i, 4 * i + 4) =~= spec_u32_to_le_bytes(words.last()));
            }
        }
    }
}

/// Words that were packed into bytes come back unchanged when the bytes are
/// unpacked.
pub proof fn lemma_unpack_pack_words(words: Seq<u32>)
    ensures
        spec_pack_words(words).len() % 4 == 0,
        spec_unpack_words(spec_pack_words(words)) == words,
{
    vstd::bytes::lemma_auto_spec_u32_to_from_le_bytes();
    lemma_pack_words_layout(words);
    let packed = spec_pack_words(words);
    assert forall|i: int| 0 <= i < words.len() implies spec_unpack_words(packed)[i] == words[i] by {
        assert(packed.subrange(4 * i, 4 * i + 4) == spec_u32_to_le_bytes(words[i]));
    }
    assert(spec_unpack_words(packed) =~= words);
}

/// Lays `words` out as bytes, little-endian, as the GPU reads them.
pub fn pack_words(words: &[u32]) -> (bytes: Vec<u8>)
    ensures
        bytes@ == spec_pack_words(words@),
        bytes@.len() == 4 * words@.len(),
{
    let mut bytes: Vec<u8> = Vec::new();
    let mut i: usize = 0;
    while i < words.len()
        invariant
            i <= words.len(),
            bytes@ == spec_pack_words(words@.take(i as int)),
        decreases words.len() - i,
    {
        let mut word = u32_to_le_bytes(words[i]);
        proof {
            let next = words@.take(i as int + 1);
            assert(next.drop_last() =~= words@.take(i as int));
            assert(next.last() == words@[i as int]);
        }
        bytes.append(&mut word);
        i = i + 1;
    }
    proof {
        assert(words@.take(i as int) =~= words@);
        lemma_pack_words_layout(words@);
    }
    bytes
}

/// Reads `bytes` as 32-bit words, little-endian.
///
/// Fails with `BufferTypeInterpretationFailed` exactly when the number of
/// bytes is not a multiple of four.
pub fn unpack_words(bytes: &[u8]) -> (words: Result<Vec<u32>, APURRendererError>)
    ensures
        bytes@.len() % 4 != 0 ==> words == Err::<Vec<u32>, APURRendererError>(
            APURRendererError::BufferTypeInterpretationFailed,
        ),
        bytes@.len() % 4 == 0 ==> words.is_ok() && words.unwrap()@ == spec_unpack_words(bytes@),
{
    if bytes.len() % WORD_BYTES != 0 {
        return Err(APURRendererError::BufferTypeInterpretationFailed);
    }
    let count: usize = bytes.len() / WORD_BYTES;
    let mut words: Vec<u32> = Vec::new();
    let mut i: usize = 0;
    while i < count
        invariant
            i <= count,
            count == bytes@.len() / 4,
            bytes@.len() % 4 == 0,
            bytes@.len() <= usize::MAX,
            words@.len() == i,
            forall|k: int| 0 <= k < i ==> words@[k] == spec_unpack_words(bytes@)[k],
        decreases count - i,
    {
        assert(4 * i + 4 <= bytes@.len());
        let chunk = vstd::slice::slice_subrange(bytes, 4 * i, 4 * i + 4);
        let word: u32 = u32_from_le_bytes(chunk);
        words.push(word);
        i = i + 1;
    }
    assert(words@ =~= spec_unpack_words(bytes@));
    Ok(words)
}

/// One GPU allocation as this layer sees it: its identity, its size, and the
/// capabilities it was created with. None of them changes after creation.
#[derive(Debug, PartialEq, Eq, Structural)]
pub struct ManagedBuffer {
    handle: u64,
    size_bytes: usize,
    usage: BufferUsage,
}

impl ManagedBuffer {
    /// The allocation that this buffer stands for.
    pub closed spec fn spec_handle(&self) -> u64 {
        self.handle
    }

    /// The size of the allocation in bytes.
    pub closed spec fn spec_size_bytes(&self) -> usize {
        self.size_bytes
    }

    /// The capabilities that the allocation was created with.
    pub closed spec fn spec_usage(&self) -> BufferUsage {
        self.usage
    }

    /// What a write of `byte_len` bytes at `offset` comes to.
    pub open spec fn spec_write(&self, offset: nat, byte_len: nat) -> Result<
        BufferWrite,
        APURRendererError,
    > {
        if offset + byte_len > self.spec_size_bytes() {
            Err(APURRendererError::BufferDataSizeMismatch)
        } else if !self.spec_usage().has(BufferUsage { bits: COPY_DST }) {
            Err(APURRendererError::BufferUsageNotCopyDst)
        } else {
            Ok(
                BufferWrite {
                    buffer: self.spec_handle(),
                    offset: offset as u64,
                    size: byte_len as u64,
                },
            )
        }
    }

    /// What a request to read the buffer back comes to.
    pub open spec fn spec_read(&self) -> Result<PendingRead, APURRendererError> {
        if !self.spec_usage().has(BufferUsage { bits: MAP_READ }) {
            Err(APURRendererError::BufferUsageNotMapRead)
        } else {
            Ok(PendingRead { buffer: self.spec_handle(), size_bytes: self.spec_size_bytes() })
        }
    }

    /// A buffer with room for `len` elements of type `T`, its content not yet
    /// written.
    pub fn new<T>(handle: u64, usage: BufferUsage, len: usize) -> (buffer: Self)
        requires
            size_of::<T>() * len <= usize::MAX,
        ensures
            buffer.spec_handle() == handle,
            buffer.spec_usage() == usage,
            buffer.spec_size_bytes() == size_of::<T>() * len,
    {
        let size_bytes: usize = core::mem::size_of::<T>() * len;
        ManagedBuffer { handle, size_bytes, usage }
    }

    /// A buffer sized exactly to `data`.
    pub fn from_data<T>(handle: u64, usage: BufferUsage, data: &[T]) -> (buffer: Self)
        requires
            size_of::<T>() * data@.len() <= usize::MAX,
        ensures
            buffer.spec_handle() == handle,
            buffer.spec_usage() == usage,
            buffer.spec_size_bytes() == size_of::<T>() * data@.len(),
    {
        let size_bytes: usize = core::mem::size_of::<T>() * data.len();
        ManagedBuffer { handle, size_bytes, usage }
    }

    /// A buffer sized exactly to `data`, together with the bytes to upload
    /// into it.
    pub fn from_u32_data(handle: u64, usage: BufferUsage, data: &[u32]) -> (made: (Self, Vec<u8>))
        requires
            4 * data@.len() <= usize::MAX,
        ensures
            made.0.spec_handle() == handle,
            made.0.spec_usage() == usage,
            made.0.spec_size_bytes() == 4 * data@.len(),
            made.1@ == spec_pack_words(data@),
    {
        let bytes = pack_words(data);
        (ManagedBuffer { handle, size_bytes: bytes.len(), usage }, bytes)
    }

    /// Checks a write of `data` at byte `offset`.
    ///
    /// Fails with `BufferDataSizeMismatch` if the data would reach past the end
    /// of the buffer, else with `BufferUsageNotCopyDst` if the buffer cannot
    /// be a copy destination. Otherwise the write is handed back for the queue.
    pub fn write_data<T>(&self, offset: usize, data: &[T]) -> (write: Result<
        BufferWrite,
        APURRendererError,
    >)
        ensures
            write == self.spec_write(offset as nat, size_of::<T>() * data@.len()),
    {
        let byte_len: usize = match core::mem::size_of::<T>().checked_mul(data.len()) {
            Some(n) => n,
            None => { return Err(APURRendererError::BufferDataSizeMismatch); },
        };
        self.write_bytes(offset, byte_len)
    }

    /// Checks a write of `byte_len` bytes at byte `offset`, as [`Self::write_data`]
    /// does for typed data.
    pub fn write_bytes(&self, offset: usize, byte_len: usize) -> (write: Result<
        BufferWrite,
        APURRendererError,
    >)
        ensures
            write == self.spec_write(offset as nat, byte_len as nat),
    {
        if offset > self.size_bytes || byte_len > self.size_bytes - offset {
            return Err(APURRendererError::BufferDataSizeMismatch);
        }
        if !self.usage.contains(BufferUsage { bits: COPY_DST }) {
            return Err(APURRendererError::BufferUsageNotCopyDst);
        }
        Ok(BufferWrite { buffer: self.handle, offset: offset as u64, size: byte_len as u64 })
    }

    /// Checks a write of `data` at byte `offset` and lays the words out for
    /// the queue.
    pub fn update_u32_data(&self, offset: usize, data: &[u32]) -> (update: Result<
        (BufferWrite, Vec<u8>),
        APURRendererError,
    >)
        ensures
            match self.spec_write(offset as nat, 4 * data@.len()) {
                Ok(w) => update.is_ok() && update.unwrap().0 == w && update.unwrap().1@
                    == spec_pack_words(data@),
                Err(e) => update.is_err() && update.unwrap_err() == e,
            },
    {
        broadcast use vstd::layout::layout_of_primitives;

        match self.write_data::<u32>(offset, data) {
            Ok(write) => Ok((write, pack_words(data))),
            Err(e) => Err(e),
        }
    }

    /// Asks for the buffer's content.
    ///
    /// Fails with `BufferUsageNotMapRead` if the buffer cannot be mapped for
    /// reading; otherwise the mapping to wait for is handed back.
    pub fn read_data(&self) -> (read: Result<PendingRead, APURRendererError>)
        ensures
            read == self.spec_read(),
    {
        if !self.usage.contains(BufferUsage { bits: MAP_READ }) {
            return Err(APURRendererError::BufferUsageNotMapRead);
        }
        Ok(PendingRead { buffer: self.handle, size_bytes: self.size_bytes })
    }

    pub fn handle(&self) -> (handle: u64)
        ensures
            handle == self.spec_handle(),
    {
        self.handle
    }

    pub fn size_bytes(&self) -> (size: usize)
        ensures
            size == self.spec_size_bytes(),
    {
        self.size_bytes
    }

    pub fn usage(&self) -> (usage: BufferUsage)
        ensures
            usage == self.spec_usage(),
    {
        self.usage
    }
}

impl PendingRead {
    /// How many elements of type `T` the mapped bytes hold.
    ///
    /// Fails with `BufferTypeInterpretationFailed` exactly when `mapped_len`
    /// is not a multiple of the size of `T`.
    pub fn element_count<T>(&self, mapped_len: usize) -> (count: Result<usize, APURRendererError>)
        requires
            size_of::<T>() > 0,
        ensures
            mapped_len as int % size_of::<T>() as int != 0 ==> count == Err::<
                usize,
                APURRendererError,
            >(APURRendererError::BufferTypeInterpretationFailed),
            mapped_len as int % size_of::<T>() as int == 0 ==> count == Ok::<
                usize,
                APURRendererError,
            >((mapped_len as int / size_of::<T>() as int) as usize),
    {
        let elem: usize = core::mem::size_of::<T>();
        if mapped_len % elem != 0 {
            return Err(APURRendererError::BufferTypeInterpretationFailed);
        }
        Ok(mapped_len / elem)
    }

    /// The mapped bytes as 32-bit words.
    ///
    /// Fails with `BufferTypeInterpretationFailed` exactly when the number of
    /// bytes is not a multiple of four.
    pub fn read_words(&self, mapped: &[u8]) -> (words: Result<Vec<u32>, APURRendererError>)
        ensures
            mapped@.len() % 4 != 0 ==> words == Err::<Vec<u32>, APURRendererError>(
                APURRendererError::BufferTypeInterpretationFailed,
            ),
            mapped@.len() % 4 == 0 ==> words.is_ok() && words.unwrap()@ == spec_unpack_words(
                mapped@,
            ),
    {
        unpack_words(mapped)
    }
}

/// Words that are written over the whole of a buffer and read back come back
/// unchanged: for a buffer of `4 * n` bytes that can be a copy destination
/// and can be mapped for reading, the write of `n` words at offset 0 is
/// taken, the read waits for the whole buffer, and the bytes that went in
/// unpack to the words that were written.
pub proof fn lemma_buffer_round_trip(buffer: ManagedBuffer, words: Seq<u32>)
    requires
        buffer.spec_usage().has(BufferUsage { bits: COPY_DST }),
        buffer.spec_usage().has(BufferUsage { bits: MAP_READ }),
        buffer.spec_size_bytes() == 4 * words.len(),
    ensures
        buffer.spec_write(0, 4 * words.len()) == Ok::<BufferWrite, APURRendererError>(
            BufferWrite {
                buffer: buffer.spec_handle(),
                offset: 0,
                size: buffer.spec_size_bytes() as u64,
            },
        ),
        buffer.spec_read() == Ok::<PendingRead, APURRendererError>(
            PendingRead { buffer: buffer.spec_handle(), size_bytes: buffer.spec_size_bytes() },
        ),
        spec_pack_words(words).len() == buffer.spec_size_bytes(),
        spec_pack_words(words).len() % 4 == 0,
        spec_unpack_words(spec_pack_words(words)) == words,
{
    lemma_pack_words_layout(words);
    lemma_unpack_pack_words(words);
}

/// A write that ends exactly at the end of a buffer that can be a copy
/// destination is taken; one that ends one byte later is refused with
/// `BufferDataSizeMismatch`.
pub proof fn lemma_write_boundary(buffer: ManagedBuffer, offset: nat, byte_len: nat)
    requires
        buffer.spec_usage().has(BufferUsage { bits: COPY_DST }),
    ensures
        offset + byte_len == buffer.spec_size_bytes() ==> buffer.spec_write(offset, byte_len)
            == Ok::<BufferWrite, APURRendererError>(
            BufferWrite { buffer: buffer.spec_handle(), offset: offset as u64, size: byte_len as u64 },
        ),
        offset + byte_len == buffer.spec_size_bytes() + 1 ==> buffer.spec_write(offset, byte_len)
            == Err::<BufferWrite, APURRendererError>(APURRendererError::BufferDataSizeMismatch),
{
}

} // verus!
