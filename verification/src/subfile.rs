//! The seekable sub-stream adapter: a byte-range view of an underlying
//! decrypted audio source that begins after a format-specific header, so that
//! every position a caller sees is expressed in post-header (logical)
//! coordinates while the source itself works in absolute coordinates.

use vstd::prelude::*;

use crate::format::{is_ogg_vorbis, spec_is_ogg_vorbis, StreamFormat};

verus! {

/// Number of bytes of container header that precede the audio payload in the
/// header-bearing (Ogg Vorbis) family.
pub const OGG_HEADER_LEN: u64 = 0xa7;

/// Addressing modes of a seek. `Start(p)` addresses byte `p`; `End(d)`
/// addresses the position `d` bytes before the end; `Current(d)` moves `d`
/// bytes relative to the current position.
#[derive(Clone, Copy, Debug, PartialEq, Eq, Structural)]
pub enum SeekFrom {
    Start(u64),
    End(i64),
    Current(i64),
}

/// How a stream operation can fail: `InvalidInput` for a request that is
/// rejected before touching the source (an end-relative seek into the hidden
/// header region), `Io` for a failure of the underlying source itself.
#[derive(Clone, Copy, Debug, PartialEq, Eq, Structural)]
pub enum StreamError {
    InvalidInput,
    Io,
}

/// An in-memory readable and seekable byte source: the decrypted contents of
/// one audio file together with a read position.
pub struct MemSource {
    pub data: Vec<u8>,
    pub pos: u64,
}

impl MemSource {
    /// The position never runs past the end of the data.
    pub open spec fn wf(self) -> bool {
        self.pos <= self.data@.len()
    }

    /// The absolute position a seek request addresses.
    pub open spec fn seek_target(self, pos: SeekFrom) -> int {
        match pos {
            SeekFrom::Start(p) => p as int,
            SeekFrom::End(d) => self.data@.len() - d,
            SeekFrom::Current(d) => self.pos + d,
        }
    }

    /// Where a read of `n` bytes starting at the current position ends:
    /// at `pos + n`, or at the end of the data if fewer bytes remain.
    pub open spec fn read_end(self, n: usize) -> int {
        if self.pos + n <= self.data@.len() {
            self.pos + n
        } else {
            self.data@.len() as int
        }
    }

    pub fn new(data: Vec<u8>) -> (s: MemSource)
        ensures
            s.wf(),
            s.data@ == data@,
            s.pos == 0,
    {
        MemSource { data, pos: 0 }
    }

    pub fn len(&self) -> (n: u64)
        ensures
            n == self.data@.len(),
    {
        self.data.len() as u64
    }

    /// Move the position to the addressed byte and return it. A target
    /// outside `0 ..= len` is an I/O error and does not move the position.
    pub fn seek(&mut self, pos: SeekFrom) -> (r: Result<u64, StreamError>)
        requires
            old(self).wf(),
        ensures
            final(self).wf(),
            final(self).data@ == old(self).data@,
            if 0 <= old(self).seek_target(pos) <= old(self).data@.len() {
                &&& r == Ok::<u64, StreamError>(old(self).seek_target(pos) as u64)
                &&& final(self).pos == old(self).seek_target(pos)
            } else {
                &&& r == Err::<u64, StreamError>(StreamError::Io)
                &&& final(self).pos == old(self).pos
            },
    {
        let len: u64 = self.data.len() as u64;
        let target: i128 = match pos {
            SeekFrom::Start(p) => p as i128,
            SeekFrom::End(d) => len as i128 - d as i128,
            SeekFrom::Current(d) => self.pos as i128 + d as i128,
        };
        if 0 <= target && target <= len as i128 {
            self.pos = target as u64;
            Ok(self.pos)
        } else {
            Err(StreamError::Io)
        }
    }

    /// Read up to `n` bytes at the current position, advancing the position
    /// by exactly the number of bytes returned.
    pub fn read(&mut self, n: usize) -> (r: Vec<u8>)
        requires
            old(self).wf(),
        ensures
            final(self).wf(),
            final(self).data@ == old(self).data@,
            r@ == old(self).data@.subrange(old(self).pos as int, old(self).read_end(n)),
            final(self).pos == old(self).read_end(n),
    {
        let total: usize = self.data.len();
        let start: usize = self.pos as usize;
        let avail: usize = total - start;
        let count: usize = if n <= avail {
            n
        } else {
            avail
        };
        let mut out: Vec<u8> = Vec::new();
        let mut i: usize = 0;
        while i < count
            invariant
                i <= count,
                start + count <= total,
                total == self.data@.len(),
                self.data@ == old(self).data@,
                self.pos == old(self).pos,
                start == old(self).pos,
                out@ == self.data@.subrange(start as int, start + i),
            decreases count - i,
        {
            out.push(self.data[start + i]);
            assert(out@ =~= self.data@.subrange(start as int, start + i + 1));
            i += 1;
        }
        self.pos = (start + count) as u64;
        assert(out@ =~= old(self).data@.subrange(old(self).pos as int, old(self).read_end(n)));
        out
    }
}

impl Clone for MemSource {
    /// A clone carries the same bytes and the same position.
    fn clone(&self) -> (r: Self)
        ensures
            r.data@ == self.data@,
            r.pos == self.pos,
    {
        MemSource { data: self.data.clone(), pos: self.pos }
    }
}

/// Header length hidden by the adapter for the given format: the fixed Ogg
/// header for the header-bearing family, nothing for every other format.
pub open spec fn header_offset(format: StreamFormat) -> u64 {
    if spec_is_ogg_vorbis(format) {
        OGG_HEADER_LEN
    } else {
        0
    }
}

/// The adapter: wraps one underlying source and exposes the same read/seek
/// contract shifted by a fixed header offset. Every externally observed
/// position is the underlying position minus `offset`; callers never see
/// bytes before `offset`.
pub struct Subfile {
    pub stream: MemSource,
    pub offset: u64,
    pub length: u64,
    pub format: StreamFormat,
}

impl Subfile {
    pub open spec fn wf(self) -> bool {
        &&& self.stream.wf()
        &&& self.offset == header_offset(self.format)
        &&& self.length == self.stream.data@.len()
        &&& self.offset <= self.length
        &&& self.offset <= self.stream.pos
    }

    /// The underlying decrypted bytes, header included.
    pub open spec fn bytes(self) -> Seq<u8> {
        self.stream.data@
    }

    /// Position of the underlying source, in absolute coordinates.
    pub open spec fn abs_pos(self) -> u64 {
        self.stream.pos
    }

    /// Position as seen by callers: the header region is subtracted out.
    pub open spec fn logical_pos(self) -> u64 {
        (self.stream.pos - self.offset) as u64
    }

    /// Length as seen by callers: the header region is subtracted out.
    pub open spec fn logical_len(self) -> u64 {
        (self.length - self.offset) as u64
    }

    /// What a seek request returns, in logical coordinates.
    ///
    /// - From start: always delegated at `p + offset`; fails only if the
    ///   target lies past the end of the source.
    /// - From end: rejected as invalid input if landing `d` bytes before the
    ///   end would fall inside the hidden header, that is if
    ///   `length - d < offset`; a negative `d` addresses past the end and is
    ///   an I/O failure of the underlying source.
    /// - Relative: delegated unchanged, but rejected as invalid input if it
    ///   would land inside the hidden header.
    pub open spec fn seek_result(self, pos: SeekFrom) -> Result<u64, StreamError> {
        match pos {
            SeekFrom::Start(p) => if p + self.offset <= self.length {
                Ok(p)
            } else {
                Err(StreamError::Io)
            },
            SeekFrom::End(d) => if self.length - d < self.offset {
                Err(StreamError::InvalidInput)
            } else if d < 0 {
                Err(StreamError::Io)
            } else {
                Ok(((self.length - d) - self.offset) as u64)
            },
            SeekFrom::Current(d) => if self.stream.pos + d < self.offset {
                Err(StreamError::InvalidInput)
            } else if self.stream.pos + d > self.length {
                Err(StreamError::Io)
            } else {
                Ok(((self.stream.pos + d) - self.offset) as u64)
            },
        }
    }

    /// The absolute position after a seek request: the addressed position if
    /// the request succeeds, the old position otherwise.
    pub open spec fn seek_abs_pos(self, pos: SeekFrom) -> u64 {
        if self.seek_result(pos) is Ok {
            match pos {
                SeekFrom::Start(p) => (p + self.offset) as u64,
                SeekFrom::End(d) => (self.length - d) as u64,
                SeekFrom::Current(d) => (self.stream.pos + d) as u64,
            }
        } else {
            self.stream.pos
        }
    }

    /// The bytes a read of `n` returns: exactly what the underlying source
    /// holds at the current absolute position, up to the end of the source.
    pub open spec fn read_result(self, n: usize) -> Seq<u8> {
        self.bytes().subrange(self.abs_pos() as int, self.stream.read_end(n))
    }

    /// Wrap `stream`, hiding the header of the given format: the underlying
    /// source is seeked to the end of the header, and all further positions
    /// are reported relative to it. `length` is the total byte length of the
    /// source. Fails with an I/O error if the source is too short to hold the
    /// header, in which case the caller treats the candidate as unusable.
    pub fn new(stream: MemSource, length: u64, format: StreamFormat) -> (r: Result<
        Subfile,
        StreamError,
    >)
        requires
            stream.wf(),
            length == stream.data@.len(),
        ensures
            match r {
                Ok(s) => {
                    &&& header_offset(format) <= length
                    &&& s.wf()
                    &&& s.format == format
                    &&& s.length == length
                    &&& s.offset == header_offset(format)
                    &&& s.bytes() == stream.data@
                    &&& s.logical_len() == length - header_offset(format)
                    &&& s.logical_pos() == 0
                },
                Err(e) => e == StreamError::Io && length < header_offset(format),
            },
    {
        let offset: u64 = if is_ogg_vorbis(format) {
            OGG_HEADER_LEN
        } else {
            0
        };
        let mut stream = stream;
        match stream.seek(SeekFrom::Start(offset)) {
            Ok(_) => Ok(Subfile { stream, offset, length, format }),
            Err(e) => Err(e),
        }
    }

    /// The length of the view the caller sees.
    pub fn logical_length(&self) -> (n: u64)
        requires
            self.wf(),
        ensures
            n == self.logical_len(),
    {
        self.length - self.offset
    }

    /// Translate the request into absolute coordinates, delegate to the
    /// underlying source, and report the resulting position back in logical
    /// coordinates. A failed request leaves the position unchanged.
    pub fn seek(&mut self, pos: SeekFrom) -> (r: Result<u64, StreamError>)
        requires
            old(self).wf(),
        ensures
            final(self).wf(),
            final(self).bytes() == old(self).bytes(),
            final(self).offset == old(self).offset,
            final(self).length == old(self).length,
            final(self).format == old(self).format,
            r == old(self).seek_result(pos),
            final(self).abs_pos() == old(self).seek_abs_pos(pos),
    {
        match pos {
            SeekFrom::Start(p) => {
                if p > u64::MAX - self.offset {
                    // the absolute target lies beyond any possible length
                    return Err(StreamError::Io);
                }
                match self.stream.seek(SeekFrom::Start(p + self.offset)) {
                    Ok(np) => Ok(np - self.offset),
                    Err(e) => Err(e),
                }
            },
            SeekFrom::End(d) => {
                let landing: i128 = self.length as i128 - d as i128;
                if landing < self.offset as i128 {
                    // the request would expose bytes of the hidden header
                    return Err(StreamError::InvalidInput);
                }
                match self.stream.seek(SeekFrom::End(d)) {
                    Ok(np) => Ok(np - self.offset),
                    Err(e) => Err(e),
                }
            },
            SeekFrom::Current(d) => {
                let landing: i128 = self.stream.pos as i128 + d as i128;
                if landing < self.offset as i128 {
                    // the request would expose bytes of the hidden header
                    return Err(StreamError::InvalidInput);
                }
                match self.stream.seek(SeekFrom::Current(d)) {
                    Ok(np) => Ok(np - self.offset),
                    Err(e) => Err(e),
                }
            },
        }
    }

    /// Read up to `n` bytes at the current position: exactly the bytes the
    /// underlying source returns at its current absolute position. The
    /// header boundary is never crossed, since the position starts at the
    /// header end and only moves forward or to checked targets.
    pub fn read(&mut self, n: usize) -> (r: Vec<u8>)
        requires
            old(self).wf(),
        ensures
            final(self).wf(),
            final(self).bytes() == old(self).bytes(),
            final(self).offset == old(self).offset,
            final(self).length == old(self).length,
            final(self).format == old(self).format,
            r@ == old(self).read_result(n),
            final(self).abs_pos() == old(self).stream.read_end(n),
    {
        self.stream.read(n)
    }
}

/// Constructing the adapter over a source of length `L` leaves logical length
/// `L - 167` for every format of the header-bearing family, and `L` for every
/// other format.
pub proof fn lemma_construction_logical_length(s: Subfile)
    requires
        s.wf(),
    ensures
        spec_is_ogg_vorbis(s.format) ==> s.logical_len() == s.length - OGG_HEADER_LEN,
        !spec_is_ogg_vorbis(s.format) ==> s.logical_len() == s.length,
{
}

/// A from-start seek to any logical position `p` within the logical length
/// succeeds and returns `p`; a read taken in the resulting state yields
/// exactly the bytes the underlying source holds at absolute position
/// `p + offset`.
pub proof fn lemma_from_start_seek_then_read(s: Subfile, after: Subfile, p: u64, n: usize)
    requires
        s.wf(),
        after.wf(),
        p <= s.logical_len(),
        after.bytes() == s.bytes(),
        after.offset == s.offset,
        after.length == s.length,
        after.abs_pos() == s.seek_abs_pos(SeekFrom::Start(p)),
    ensures
        s.seek_result(SeekFrom::Start(p)) == Ok::<u64, StreamError>(p),
        after.read_result(n) == s.bytes().subrange(
            p + s.offset,
            if p + s.offset + n <= s.length {
                p + s.offset + n
            } else {
                s.length as int
            },
        ),
{
}

/// An end-relative seek requesting more bytes from the end than the logical
/// length is rejected as invalid input and does not move the position.
pub proof fn lemma_end_seek_past_header_rejected(s: Subfile, d: i64)
    requires
        s.wf(),
        d > s.logical_len(),
    ensures
        s.seek_result(SeekFrom::End(d)) == Err::<u64, StreamError>(StreamError::InvalidInput),
        s.seek_abs_pos(SeekFrom::End(d)) == s.abs_pos(),
{
}

/// A relative seek of zero always succeeds, returns the current logical
/// position, and leaves the position where it was.
pub proof fn lemma_zero_current_seek(s: Subfile)
    requires
        s.wf(),
    ensures
        s.seek_result(SeekFrom::Current(0)) == Ok::<u64, StreamError>(s.logical_pos()),
        s.seek_abs_pos(SeekFrom::Current(0)) == s.abs_pos(),
{
}

} // verus!
