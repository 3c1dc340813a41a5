//! The byte-counting source: a seekable byte stream wrapped so that every
//! byte it hands out is counted.

use vstd::prelude::*;

verus! {

/// The target of a seek.
#[derive(Clone, Copy, Debug, PartialEq, Eq)]
pub enum SeekTo {
    /// An offset from the start of the stream.
    Start(u64),
    /// An offset from the end of the stream.
    End(i64),
    /// An offset from the current position.
    Current(i64),
}

/// A seekable stream of bytes.
pub trait ByteStream: Sized {
    /// The failure of a read or a seek.
    type Error;

    /// Whether a read of at most `max` bytes can take the stream from `self`
    /// to `after` with the result `res`. A stream that says nothing of its
    /// reads admits every outcome.
    open spec fn reads(self, max: usize, after: Self, res: Result<Vec<u8>, Self::Error>) -> bool {
        true
    }

    /// Whether a seek can take the stream from `self` to `after` with the
    /// result `res`. A stream that says nothing of its seeks admits every
    /// outcome.
    open spec fn seeks(self, to: SeekTo, after: Self, res: Result<u64, Self::Error>) -> bool {
        true
    }

    /// Reads at most `max` bytes at the position and moves past them.
    ///
    /// An empty chunk means that `max` is zero or the end is reached.
    fn read(&mut self, max: usize) -> (res: Result<Vec<u8>, Self::Error>)
        ensures
            res matches Ok(chunk) ==> chunk@.len() <= max,
            old(self).reads(max, *final(self), res),
    ;

    /// Moves the position and returns it as an offset from the start.
    fn seek(&mut self, to: SeekTo) -> (res: Result<u64, Self::Error>)
        ensures
            old(self).seeks(to, *final(self), res),
    ;
}

/// What a byte-counting source has counted, as a mathematical value.
pub struct SourceView {
    /// The bytes handed out by all reads together.
    pub bytes_read: nat,
    /// The length of the stream.
    pub total_size: nat,
}

/// The sum of the given chunk sizes.
pub open spec fn total(sizes: Seq<nat>) -> nat
    decreases sizes.len(),
{
    if sizes.len() == 0 {
        0
    } else {
        sizes[0] + total(sizes.subrange(1, sizes.len() as int))
    }
}

impl SourceView {
    /// The source after a read that returned `n` bytes.
    pub open spec fn after_read(self, n: nat) -> SourceView {
        SourceView { bytes_read: self.bytes_read + n, total_size: self.total_size }
    }

    /// The source after reads that returned chunks of the given sizes, in
    /// order.
    pub open spec fn after_reads(self, sizes: Seq<nat>) -> SourceView
        decreases sizes.len(),
    {
        if sizes.len() == 0 {
            self
        } else {
            self.after_read(sizes[0]).after_reads(sizes.subrange(1, sizes.len() as int))
        }
    }
}

/// A stream wrapped so that the bytes it hands out are counted.
pub struct ProgressReader<R: ByteStream> {
    inner: R,
    bytes_read: u64,
    total_size: u64,
}

impl<R: ByteStream> View for ProgressReader<R> {
    type V = SourceView;

    closed spec fn view(&self) -> SourceView {
        SourceView { bytes_read: self.bytes_read as nat, total_size: self.total_size as nat }
    }
}

impl<R: ByteStream> ProgressReader<R> {
    /// The wrapped stream.
    pub closed spec fn inner(&self) -> R {
        self.inner
    }

    /// Wraps a stream of `total_size` bytes; nothing has been read.
    pub fn new(inner: R, total_size: u64) -> (reader: Self)
        ensures
            reader.inner() == inner,
            reader@.bytes_read == 0,
            reader@.total_size == total_size,
    {
        ProgressReader { inner, bytes_read: 0, total_size }
    }

    /// Reads at most `max` bytes from the wrapped stream and counts those
    /// that it returned. The result is that of the one read that the wrapped
    /// stream makes, with the same `max`; a failure of the stream is passed
    /// on and counts nothing.
    pub fn read(&mut self, max: usize) -> (res: Result<Vec<u8>, R::Error>)
        requires
            old(self)@.bytes_read + max <= u64::MAX,
        ensures
            old(self).inner().reads(max, final(self).inner(), res),
            match res {
                Ok(chunk) => chunk@.len() <= max && final(self)@ == old(self)@.after_read(
                    chunk@.len(),
                ),
                Err(_) => final(self)@ == old(self)@,
            },
    {
        let res = self.inner.read(max);
        if let Ok(chunk) = &res {
            self.bytes_read = self.bytes_read + chunk.len() as u64;
        }
        res
    }

    /// Moves the position of the wrapped stream: the result is that of the
    /// one seek that the wrapped stream makes, to the same target. The count
    /// is unchanged: it measures what was read, not where the stream stands.
    pub fn seek(&mut self, to: SeekTo) -> (res: Result<u64, R::Error>)
        ensures
            old(self).inner().seeks(to, final(self).inner(), res),
            final(self)@ == old(self)@,
    {
        self.inner.seek(to)
    }

    /// A byte-counting source can always seek.
    pub fn is_seekable(&self) -> (b: bool)
        ensures
            b,
    {
        true
    }

    /// The length of the stream.
    pub fn byte_len(&self) -> (len: Option<u64>)
        ensures
            len == Some(self@.total_size as u64),
    {
        Some(self.total_size)
    }

    /// The number of bytes handed out so far.
    pub fn bytes_read(&self) -> (n: u64)
        ensures
            n == self@.bytes_read,
    {
        self.bytes_read
    }
}

/// The count grows by exactly the bytes that the reads returned, so it never
/// falls; the length of the stream stays as given.
pub proof fn lemma_reads_add_up(source: SourceView, sizes: Seq<nat>)
    ensures
        source.after_reads(sizes).bytes_read == source.bytes_read + total(sizes),
        source.after_reads(sizes).bytes_read >= source.bytes_read,
        source.after_reads(sizes).total_size == source.total_size,
    decreases sizes.len(),
{
    if sizes.len() > 0 {
        lemma_reads_add_up(source.after_read(sizes[0]), sizes.subrange(1, sizes.len() as int));
    }
}

/// Once a stream has been read from its start to its end, in chunks of any
/// sizes that together make up its length, the count equals that length.
pub proof fn lemma_count_reaches_length(source: SourceView, sizes: Seq<nat>)
    requires
        source.bytes_read == 0,
        total(sizes) == source.total_size,
    ensures
        source.after_reads(sizes).bytes_read == source.total_size,
{
    lemma_reads_add_up(source, sizes);
}

/// The failure of a seek to before the start of a stream, or past the
/// largest offset.
#[derive(Clone, Copy, Debug, PartialEq, Eq)]
pub struct InvalidSeek;

/// A byte stream held in memory, as a mathematical value.
pub struct MemoryView {
    pub data: Seq<u8>,
    pub position: nat,
}

impl MemoryView {
    /// The number of bytes between the position and the end.
    pub open spec fn remaining(self) -> nat {
        if self.position >= self.data.len() {
            0
        } else {
            (self.data.len() - self.position) as nat
        }
    }

    /// The offset that a seek aims at.
    pub open spec fn target(self, to: SeekTo) -> int {
        match to {
            SeekTo::Start(n) => n as int,
            SeekTo::End(d) => self.data.len() + d,
            SeekTo::Current(d) => self.position + d,
        }
    }
}

/// A byte stream held in memory.
#[derive(Debug)]
pub struct MemoryStream {
    data: Vec<u8>,
    position: u64,
}

impl View for MemoryStream {
    type V = MemoryView;

    closed spec fn view(&self) -> MemoryView {
        MemoryView { data: self.data@, position: self.position as nat }
    }
}

impl MemoryStream {
    /// A stream over `data`, positioned at its start.
    pub fn new(data: Vec<u8>) -> (stream: MemoryStream)
        ensures
            stream@.data == data@,
            stream@.position == 0,
    {
        MemoryStream { data, position: 0 }
    }

    /// The length of the stream.
    pub fn len(&self) -> (n: usize)
        ensures
            n == self@.data.len(),
    {
        self.data.len()
    }

    /// The position as an offset from the start.
    pub fn position(&self) -> (n: u64)
        ensures
            n == self@.position,
    {
        self.position
    }
}

impl ByteStream for MemoryStream {
    type Error = InvalidSeek;

    /// A read never fails: it returns the bytes at the position, as many as
    /// `max` and the end of the stream allow, and moves past them.
    open spec fn reads(self, max: usize, after: Self, res: Result<Vec<u8>, InvalidSeek>) -> bool {
        &&& res matches Ok(chunk)
        &&& chunk@.len() == vstd::math::min(max as int, self@.remaining() as int)
        &&& forall|k: int| 0 <= k < chunk@.len() ==> chunk@[k] == self@.data[self@.position + k]
        &&& after@.data == self@.data
        &&& after@.position == self@.position + chunk@.len()
    }

    /// A seek moves the position to its target. A target before the start
    /// or beyond the largest offset fails and moves nothing.
    open spec fn seeks(self, to: SeekTo, after: Self, res: Result<u64, InvalidSeek>) -> bool {
        &&& after@.data == self@.data
        &&& if 0 <= self@.target(to) <= u64::MAX {
            res == Ok::<u64, InvalidSeek>(self@.target(to) as u64) && after@.position
                == self@.target(to)
        } else {
            res is Err && after@.position == self@.position
        }
    }

    fn read(&mut self, max: usize) -> (res: Result<Vec<u8>, InvalidSeek>) {
        let mut chunk: Vec<u8> = Vec::new();
        let len: usize = self.data.len();
        if self.position >= len as u64 {
            return Ok(chunk);
        }
        let start: usize = self.position as usize;
        let available: usize = len - start;
        let count: usize = if max < available {
            max
        } else {
            available
        };
        let mut k: usize = 0;
        while k < count
            invariant
                k <= count,
                start + count <= len,
                len == self.data@.len(),
                chunk@ == self.data@.subrange(start as int, start + k),
            decreases count - k,
        {
            chunk.push(self.data[start + k]);
            assert(chunk@ == self.data@.subrange(start as int, start + k + 1));
            k = k + 1;
        }
        self.position = self.position + count as u64;
        Ok(chunk)
    }

    fn seek(&mut self, to: SeekTo) -> (res: Result<u64, InvalidSeek>) {
        let target: i128 = match to {
            SeekTo::Start(n) => n as i128,
            SeekTo::End(d) => self.data.len() as i128 + d as i128,
            SeekTo::Current(d) => self.position as i128 + d as i128,
        };
        if target < 0 || target > u64::MAX as i128 {
            Err(InvalidSeek)
        } else {
            self.position = target as u64;
            Ok(target as u64)
        }
    }
}

} // verus!
