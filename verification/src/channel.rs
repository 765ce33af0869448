//! The scratch buffers of one connection: a line buffer in each direction
//! and one chunk buffer, each with its cursor.

use crate::chunk::{classify, flag, flag_of, terminator_of, Terminator};
use crate::error::ProtocolError;
use crate::limits::{
    chunk_size_ok, is_pow2, valid_chunk_size, CHUNK_SIZE, MAX_CHUNK_SIZE, MIN_CHUNK_SIZE,
};
use vstd::prelude::*;
use vstd::slice::slice_subrange;

verus! {

/// Size of the line buffer in each direction.
pub const BUFFER_SIZE: usize = 8192;

/// `src` written over `dst` from offset `at`.
pub open spec fn splice(dst: Seq<u8>, at: int, src: Seq<u8>) -> Seq<u8> {
    dst.take(at) + src + dst.skip(at + src.len())
}

/// Copies `src` over `dst` from offset `at`.
pub fn copy_into(dst: &mut Vec<u8>, at: usize, src: &[u8])
    requires
        at + src@.len() <= old(dst)@.len(),
    ensures
        final(dst)@ == splice(old(dst)@, at as int, src@),
        final(dst)@.len() == old(dst)@.len(),
{
    let n: usize = src.len();
    let total: usize = dst.len();
    let mut i: usize = 0;
    while i < n
        invariant
            n == src@.len(),
            total == dst@.len(),
            i <= n,
            at + n <= dst@.len(),
            dst@.len() == old(dst)@.len(),
            dst@ == splice(old(dst)@, at as int, src@.take(i as int)),
        decreases n - i,
    {
        let ghost before = dst@;
        dst[at + i] = src[i];
        assert(dst@ =~= splice(old(dst)@, at as int, src@.take(i + 1)));
        i += 1;
    }
    assert(src@.take(n as int) =~= src@);
}

/// What of a connection's buffers can be observed.
pub struct ChannelView {
    /// The bytes of the line that is being received.
    pub received: Seq<u8>,
    /// The bytes of the staged line that are not written yet.
    pub pending: Seq<u8>,
    /// The chunk buffer; its length is the chunk size.
    pub chunk: Seq<u8>,
    /// How much of the current chunk has been moved.
    pub chunk_pos: nat,
    /// The cursor in the line that is being received: as many bytes as
    /// were received.
    pub read_pos: nat,
    /// The cursor in the staged line: as many bytes as were written.
    pub write_pos: nat,
    /// The length of the staged line.
    pub write_len: nat,
}

/// The scratch buffers of one connection.
pub struct Channel {
    pub read_buffer: Vec<u8>,
    pub read_pos: usize,
    pub write_buffer: Vec<u8>,
    pub write_pos: usize,
    pub write_len: usize,
    pub chunk_buffer: Vec<u8>,
    pub chunk_pos: usize,
}

impl View for Channel {
    type V = ChannelView;

    open spec fn view(&self) -> ChannelView {
        ChannelView {
            received: self.read_buffer@.take(self.read_pos as int),
            pending: self.write_buffer@.subrange(self.write_pos as int, self.write_len as int),
            chunk: self.chunk_buffer@,
            chunk_pos: self.chunk_pos as nat,
            read_pos: self.read_pos as nat,
            write_pos: self.write_pos as nat,
            write_len: self.write_len as nat,
        }
    }
}

impl ChannelView {
    /// The view of buffers that hold nothing, with the chunk buffer as it
    /// is: every cursor is back at the start.
    pub open spec fn cleared(self) -> ChannelView {
        ChannelView {
            received: Seq::empty(),
            pending: Seq::empty(),
            chunk_pos: 0,
            read_pos: 0,
            write_pos: 0,
            write_len: 0,
            ..self
        }
    }

    /// The view with `line` staged and nothing else held: the write cursor
    /// stands at the start of the line.
    pub open spec fn staging(self, line: Seq<u8>) -> ChannelView {
        ChannelView { pending: line, write_len: line.len(), ..self.cleared() }
    }

    /// The view with `n` more bytes of the staged line written: the write
    /// cursor has moved on by `n`.
    pub open spec fn written(self, n: nat) -> ChannelView {
        ChannelView { pending: self.pending.skip(n as int), write_pos: self.write_pos + n, ..self }
    }

    /// The view with `data` appended to the line that is being received:
    /// the read cursor has moved on by its length.
    pub open spec fn taking(self, data: Seq<u8>) -> ChannelView {
        ChannelView {
            received: self.received + data,
            read_pos: self.read_pos + data.len(),
            ..self
        }
    }

    /// The cursors agree with what they point into.
    pub open spec fn cursors_ok(self) -> bool {
        &&& self.read_pos == self.received.len()
        &&& self.write_pos + self.pending.len() == self.write_len
        &&& self.chunk_pos < self.chunk.len()
    }

    /// The part of the current chunk that is still to be written.
    pub open spec fn chunk_pending(self) -> Seq<u8> {
        self.chunk.skip(self.chunk_pos as int)
    }
}

impl Channel {
    /// The cursors lie within their buffers, the line buffers have their
    /// fixed size, and the chunk buffer has a chunk size that a connection
    /// may hold.
    pub open spec fn wf(&self) -> bool {
        &&& self.read_buffer@.len() == BUFFER_SIZE
        &&& self.write_buffer@.len() == BUFFER_SIZE
        &&& self.read_pos <= BUFFER_SIZE
        &&& self.write_pos <= self.write_len <= BUFFER_SIZE
        &&& valid_chunk_size(self.chunk_buffer@.len() as int)
        &&& self.chunk_pos < self.chunk_buffer@.len()
    }

    /// Empty buffers with a chunk buffer of the default chunk size.
    pub fn new() -> (r: Channel)
        ensures
            r.wf(),
            r@.received == Seq::<u8>::empty(),
            r@.pending == Seq::<u8>::empty(),
            r@.chunk == Seq::new(CHUNK_SIZE as nat, |i: int| 0u8),
            r@.chunk_pos == 0,
            r@.read_pos == 0,
            r@.write_pos == 0,
            r@.write_len == 0,
    {
        let r = Channel {
            read_buffer: vec![0u8; BUFFER_SIZE],
            read_pos: 0,
            write_buffer: vec![0u8; BUFFER_SIZE],
            write_pos: 0,
            write_len: 0,
            chunk_buffer: vec![0u8; CHUNK_SIZE],
            chunk_pos: 0,
        };
        proof {
            crate::limits::lemma_valid_chunk_sizes(CHUNK_SIZE as int);
            assert(r@.received =~= Seq::<u8>::empty());
            assert(r@.pending =~= Seq::<u8>::empty());
            assert(r@.chunk =~= Seq::new(CHUNK_SIZE as nat, |i: int| 0u8));
        }
        r
    }

    /// The length of the chunks that the connection moves.
    pub fn chunk_size(&self) -> (r: usize)
        ensures
            r == self@.chunk.len(),
    {
        self.chunk_buffer.len()
    }

    /// Forgets the line in either direction and any partial chunk.
    pub fn reset(&mut self)
        requires
            old(self).wf(),
        ensures
            final(self).wf(),
            final(self)@ == old(self)@.cleared(),
            final(self).read_pos == 0,
            final(self).write_pos == 0,
    {
        self.read_pos = 0;
        self.write_pos = 0;
        self.write_len = 0;
        self.chunk_pos = 0;
        assert(self@.received =~= Seq::<u8>::empty());
        assert(self@.pending =~= Seq::<u8>::empty());
    }

    /// Makes `line` the pending output and forgets what was received. A line
    /// that does not fit the buffer is refused and nothing changes.
    pub fn stage(&mut self, line: &[u8]) -> (r: Result<(), ProtocolError>)
        requires
            old(self).wf(),
        ensures
            final(self).wf(),
            match r {
                Ok(_) => line@.len() <= BUFFER_SIZE && final(self)@ == old(self)@.staging(line@)
                    && final(self).write_pos == 0 && final(self).read_pos == 0,
                Err(e) => e == ProtocolError::LineTooLong && line@.len() > BUFFER_SIZE && *final(self) == *old(self),
            },
    {
        if line.len() > BUFFER_SIZE {
            return Err(ProtocolError::LineTooLong);
        }
        copy_into(&mut self.write_buffer, 0, line);
        self.write_pos = 0;
        self.write_len = line.len();
        self.read_pos = 0;
        self.chunk_pos = 0;
        assert(self@.pending =~= line@);
        assert(self@.received =~= Seq::<u8>::empty());
        Ok(())
    }

    /// The bytes of the staged line that are still to be written.
    pub fn outgoing(&self) -> (r: &[u8])
        requires
            self.wf(),
        ensures
            r@ == self@.pending,
    {
        slice_subrange(self.write_buffer.as_slice(), self.write_pos, self.write_len)
    }

    /// Accounts for `n` bytes of the staged line having been written, and
    /// says whether the line is out. More than was pending is refused and
    /// nothing changes.
    pub fn sent(&mut self, n: usize) -> (r: Result<bool, ProtocolError>)
        requires
            old(self).wf(),
        ensures
            final(self).wf(),
            match r {
                Ok(done) => n <= old(self)@.pending.len() && done == (n == old(self)@.pending.len())
                    && final(self)@ == old(self)@.written(n as nat),
                Err(e) => e == ProtocolError::Overrun && n > old(self)@.pending.len() && *final(self) == *old(self),
            },
    {
        if n > self.write_len - self.write_pos {
            return Err(ProtocolError::Overrun);
        }
        self.write_pos = self.write_pos + n;
        assert(self@.pending =~= old(self)@.pending.skip(n as int));
        Ok(self.write_pos == self.write_len)
    }

    /// How many more bytes the line buffer takes.
    pub fn line_room(&self) -> (r: usize)
        requires
            self.wf(),
        ensures
            r == BUFFER_SIZE - self@.received.len(),
    {
        BUFFER_SIZE - self.read_pos
    }

    /// Appends `data` to the line that is being received. Data beyond the
    /// line buffer is refused and nothing changes.
    pub fn receive(&mut self, data: &[u8]) -> (r: Result<(), ProtocolError>)
        requires
            old(self).wf(),
        ensures
            final(self).wf(),
            match r {
                Ok(_) => old(self)@.received.len() + data@.len() <= BUFFER_SIZE && final(self)@
                    == old(self)@.taking(data@),
                Err(e) => e == ProtocolError::LineTooLong && old(self)@.received.len()
                    + data@.len() > BUFFER_SIZE && *final(self) == *old(self),
            },
    {
        if data.len() > BUFFER_SIZE - self.read_pos {
            return Err(ProtocolError::LineTooLong);
        }
        copy_into(&mut self.read_buffer, self.read_pos, data);
        self.read_pos = self.read_pos + data.len();
        assert(self@.received =~= old(self)@.received + data@);
        Ok(())
    }

    /// The line received so far.
    pub fn line(&self) -> (r: &[u8])
        requires
            self.wf(),
        ensures
            r@ == self@.received,
    {
        slice_subrange(self.read_buffer.as_slice(), 0, self.read_pos)
    }

    /// Gives the chunk buffer the length `size`, keeping what it holds and
    /// filling with zeros, and forgets any partial chunk. A size that a
    /// connection may not hold is refused and nothing changes.
    pub fn set_chunk_size(&mut self, size: usize) -> (r: Result<(), ProtocolError>)
        requires
            old(self).wf(),
        ensures
            final(self).wf(),
            match r {
                Ok(_) => valid_chunk_size(size as int) && final(self)@ == (ChannelView {
                    chunk: resized(old(self)@.chunk, size as nat),
                    chunk_pos: 0,
                    ..old(self)@
                }),
                Err(e) => e == ProtocolError::ChunkSize && !valid_chunk_size(size as int)
                    && *final(self) == *old(self),
            },
    {
        if !chunk_size_ok(size as u64) {
            return Err(ProtocolError::ChunkSize);
        }
        self.chunk_buffer.resize(size, 0u8);
        self.chunk_pos = 0;
        assert(self@.chunk =~= resized(old(self)@.chunk, size as nat));
        Ok(())
    }

    /// How many more bytes the current chunk takes.
    pub fn chunk_room(&self) -> (r: usize)
        requires
            self.wf(),
        ensures
            r == self@.chunk.len() - self@.chunk_pos,
            r > 0,
    {
        self.chunk_buffer.len() - self.chunk_pos
    }

    /// Moves `data` into the current chunk. When that completes the chunk,
    /// its terminator is read and the cursor returns to the start. More than
    /// the chunk has room for is refused and nothing changes; a completed
    /// chunk that ends in neither flag is a framing error.
    pub fn receive_chunk(&mut self, data: &[u8]) -> (r: Result<Option<Terminator>, ProtocolError>)
        requires
            old(self).wf(),
        ensures
            final(self).wf(),
            data@.len() > old(self)@.chunk.len() - old(self)@.chunk_pos ==> r == Err::<
                Option<Terminator>,
                ProtocolError,
            >(ProtocolError::Overrun) && *final(self) == *old(self),
            data@.len() <= old(self)@.chunk.len() - old(self)@.chunk_pos ==> {
                let filled = splice(old(self)@.chunk, old(self)@.chunk_pos as int, data@);
                let full = old(self)@.chunk_pos + data@.len() == old(self)@.chunk.len();
                &&& final(self)@ == (ChannelView {
                    chunk: filled,
                    chunk_pos: if full {
                        0
                    } else {
                        (old(self)@.chunk_pos + data@.len()) as nat
                    },
                    ..old(self)@
                })
                &&& r == if full {
                    match terminator_of(filled.last()) {
                        Ok(t) => Ok(Some(t)),
                        Err(e) => Err(e),
                    }
                } else {
                    Ok(None)
                }
            },
    {
        if data.len() > self.chunk_buffer.len() - self.chunk_pos {
            return Err(ProtocolError::Overrun);
        }
        copy_into(&mut self.chunk_buffer, self.chunk_pos, data);
        let end: usize = self.chunk_pos + data.len();
        if end == self.chunk_buffer.len() {
            self.chunk_pos = 0;
            let last: u8 = self.chunk_buffer[end - 1];
            match classify(last) {
                Ok(t) => Ok(Some(t)),
                Err(e) => Err(e),
            }
        } else {
            self.chunk_pos = end;
            Ok(None)
        }
    }

    /// Marks the chunk buffer as the next chunk to send, ending in the flag
    /// for `t`.
    pub fn seal_chunk(&mut self, t: Terminator)
        requires
            old(self).wf(),
        ensures
            final(self).wf(),
            final(self)@ == (ChannelView {
                chunk: old(self)@.chunk.update(old(self)@.chunk.len() - 1, flag_of(t)),
                chunk_pos: 0,
                ..old(self)@
            }),
    {
        let last: usize = self.chunk_buffer.len() - 1;
        self.chunk_buffer[last] = flag(t);
        self.chunk_pos = 0;
    }

    /// The part of the current chunk that is still to be written.
    pub fn chunk_outgoing(&self) -> (r: &[u8])
        requires
            self.wf(),
        ensures
            r@ == self@.chunk_pending(),
            r@.len() > 0,
    {
        slice_subrange(self.chunk_buffer.as_slice(), self.chunk_pos, self.chunk_buffer.len())
    }

    /// Accounts for `n` bytes of the current chunk having been written, and
    /// says whether the chunk is out; the cursor then returns to the start.
    /// More than was pending is refused and nothing changes.
    pub fn chunk_sent(&mut self, n: usize) -> (r: Result<bool, ProtocolError>)
        requires
            old(self).wf(),
        ensures
            final(self).wf(),
            match r {
                Ok(done) => {
                    &&& n <= old(self)@.chunk_pending().len()
                    &&& done == (n == old(self)@.chunk_pending().len())
                    &&& final(self)@ == (ChannelView {
                        chunk_pos: if done {
                            0
                        } else {
                            (old(self)@.chunk_pos + n) as nat
                        },
                        ..old(self)@
                    })
                },
                Err(e) => e == ProtocolError::Overrun && n > old(self)@.chunk_pending().len()
                    && *final(self) == *old(self),
            },
    {
        if n > self.chunk_buffer.len() - self.chunk_pos {
            return Err(ProtocolError::Overrun);
        }
        let end: usize = self.chunk_pos + n;
        if end == self.chunk_buffer.len() {
            self.chunk_pos = 0;
            Ok(true)
        } else {
            self.chunk_pos = end;
            Ok(false)
        }
    }
}

/// The cursors of well-formed buffers agree with what they point into.
pub proof fn lemma_cursors(channel: Channel)
    requires
        channel.wf(),
    ensures
        channel@.cursors_ok(),
        channel@.read_pos <= BUFFER_SIZE,
        channel@.write_pos <= channel@.write_len <= BUFFER_SIZE,
{
}

/// The chunk size of a connection lies within the bounds and is a power of
/// two, and the chunk buffer has exactly that length.
pub proof fn lemma_chunk_size(channel: Channel)
    requires
        channel.wf(),
    ensures
        MIN_CHUNK_SIZE <= channel@.chunk.len() <= MAX_CHUNK_SIZE,
        is_pow2(channel@.chunk.len() as int),
        channel.chunk_buffer@.len() == channel@.chunk.len(),
        channel@.chunk.len() % MIN_CHUNK_SIZE as nat == 0,
{
    crate::limits::lemma_valid_chunk_sizes(channel@.chunk.len() as int);
}

/// A buffer cut or zero-filled to the length `len`.
pub open spec fn resized(buffer: Seq<u8>, len: nat) -> Seq<u8> {
    Seq::new(
        len,
        |i: int|
            if i < buffer.len() {
                buffer[i]
            } else {
                0u8
            },
    )
}

} // verus!
