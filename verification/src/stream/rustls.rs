//! What a TLS client stream keeps between calls: plaintext that the caller
//! has not taken yet, and the one byte that a blocked write left reported
//! short.

use vstd::prelude::*;

verus! {

/// The bookkeeping of a TLS client stream.
pub struct RustlsStream {
    /// Whether the handshake data has been written out.
    pub handshake_done: bool,
    /// Whether the last write reported every byte that the engine took.
    pub finished: bool,
    /// Plaintext that the engine produced and no read has delivered yet.
    pub temp_buf: Vec<u8>,
}

/// How a read begins.
#[derive(Clone, Copy, Debug, PartialEq, Eq, Structural)]
pub enum ReadStart {
    /// Plaintext is buffered: it is served without touching the socket.
    Serve,
    /// Nothing is buffered: ciphertext is pulled from the socket.
    Pull,
}

/// What pulling ciphertext from the socket came to.
#[derive(Clone, Copy, Debug, PartialEq, Eq, Structural)]
pub enum Pulled {
    WouldBlock,
    Failed,
    /// The socket is at its end.
    Closed,
    /// Ciphertext arrived.
    Data,
}

/// How a read goes on after the pull.
#[derive(Clone, Copy, Debug, PartialEq, Eq, Structural)]
pub enum AfterPull {
    /// Buffered plaintext is delivered.
    Deliver,
    /// Nothing is buffered: the read reports that it would block.
    Block,
    /// The read reports the failure.
    Fail,
    /// Nothing is buffered: the read reports the end of the stream.
    Eof,
    /// The engine processes what arrived.
    Process,
}

/// How a read ends after the engine's plaintext was drained.
#[derive(Clone, Copy, Debug, PartialEq, Eq, Structural)]
pub enum AfterDrain {
    /// Buffered plaintext is delivered.
    Deliver,
    /// Nothing to deliver and the engine wants more ciphertext: the read
    /// starts over.
    Retry,
    /// Nothing is buffered and the engine asks for nothing: the read
    /// reports the end of the stream.
    Eof,
}

/// The smaller of two lengths.
pub open spec fn least(a: nat, b: nat) -> nat {
    if a <= b {
        a
    } else {
        b
    }
}

/// How a read begins with `buffered` bytes of plaintext not yet delivered:
/// what is buffered is served before the socket is asked for more.
pub open spec fn read_start_of(buffered: nat) -> ReadStart {
    if buffered > 0 {
        ReadStart::Serve
    } else {
        ReadStart::Pull
    }
}

/// How a read goes on after the pull with `buffered` bytes of plaintext not
/// yet delivered: a socket that blocks or is at its end still lets buffered
/// plaintext through; only with nothing buffered does the read report that
/// it would block, or the end of the stream.
pub open spec fn after_pull_of(buffered: nat, pulled: Pulled) -> AfterPull {
    match pulled {
        Pulled::WouldBlock => if buffered > 0 {
            AfterPull::Deliver
        } else {
            AfterPull::Block
        },
        Pulled::Closed => if buffered > 0 {
            AfterPull::Deliver
        } else {
            AfterPull::Eof
        },
        Pulled::Failed => AfterPull::Fail,
        Pulled::Data => AfterPull::Process,
    }
}

/// How a read ends after the engine's plaintext was drained into the
/// buffer, which then holds `buffered` bytes.
pub open spec fn after_drain_of(buffered: nat, wants_read: bool) -> AfterDrain {
    if buffered > 0 {
        AfterDrain::Deliver
    } else if wants_read {
        AfterDrain::Retry
    } else {
        AfterDrain::Eof
    }
}

/// While plaintext is buffered a read delivers: it begins by serving, and
/// at no point reports the end of the stream, zero bytes, or that it would
/// block. Into a destination with room it delivers at least one byte and no
/// more than the room.
pub proof fn lemma_buffered_is_delivered(
    buffered: nat,
    room: nat,
    pulled: Pulled,
    wants_read: bool,
)
    requires
        buffered > 0,
    ensures
        read_start_of(buffered) == ReadStart::Serve,
        after_pull_of(buffered, pulled) != AfterPull::Eof,
        after_pull_of(buffered, pulled) != AfterPull::Block,
        after_drain_of(buffered, wants_read) == AfterDrain::Deliver,
        room > 0 ==> 1 <= least(buffered, room) <= room,
{
}

/// The end of the stream, and that the read would block, are reported only
/// with nothing buffered.
pub proof fn lemma_end_only_when_empty(buffered: nat, pulled: Pulled, wants_read: bool)
    ensures
        after_pull_of(buffered, pulled) == AfterPull::Eof ==> buffered == 0,
        after_pull_of(buffered, pulled) == AfterPull::Block ==> buffered == 0,
        after_drain_of(buffered, wants_read) == AfterDrain::Eof ==> buffered == 0,
        after_drain_of(buffered, wants_read) == AfterDrain::Retry ==> buffered == 0,
{
}

/// The byte that a blocked write held back, counted first by the write that
/// follows.
pub open spec fn carried_over(finished: bool) -> nat {
    if finished {
        0
    } else {
        1
    }
}

/// What a write reports and leaves behind, `total` being the bytes of the
/// presented buffer that the engine holds, the byte carried over among
/// them: a write whose socket blocked reports one byte less and notes that
/// it did; any other reports them all.
pub open spec fn write_outcome(total: nat, blocked: bool) -> (nat, bool) {
    if blocked && total > 0 {
        ((total - 1) as nat, false)
    } else {
        (total, true)
    }
}

/// Across a write that took `accepted` new bytes, the bytes that the engine
/// holds of the caller's stream are the bytes reported plus the byte held
/// back: no byte is counted twice and none is lost.
pub proof fn lemma_write_accounting(finished: bool, accepted: nat, blocked: bool)
    ensures
        ({
            let (reported, finished_after) = write_outcome(
                carried_over(finished) + accepted,
                blocked,
            );
            carried_over(finished) + accepted == reported + carried_over(finished_after)
        }),
{
}

impl RustlsStream {
    /// The bookkeeping of a fresh stream: handshake not written, nothing
    /// held back, nothing buffered.
    pub fn new() -> (r: RustlsStream)
        ensures
            !r.handshake_done,
            r.finished,
            r.temp_buf@ == Seq::<u8>::empty(),
    {
        RustlsStream { handshake_done: false, finished: true, temp_buf: Vec::new() }
    }

    /// How a read begins: buffered plaintext is served before the socket is
    /// asked for more.
    pub fn read(&self) -> (r: ReadStart)
        ensures
            r == read_start_of(self.temp_buf@.len()),
    {
        if self.temp_buf.len() > 0 {
            ReadStart::Serve
        } else {
            ReadStart::Pull
        }
    }

    /// Takes up to `room` bytes of the buffered plaintext, oldest first:
    /// at least one where plaintext is buffered and the destination has
    /// room. What is taken leaves the buffer, what is not stays in order.
    pub fn deliver(&mut self, room: usize) -> (r: Vec<u8>)
        ensures
            r@.len() == least(old(self).temp_buf@.len(), room as nat),
            r@.len() <= room,
            old(self).temp_buf@.len() > 0 && room > 0 ==> r@.len() >= 1,
            r@ == old(self).temp_buf@.take(r@.len() as int),
            final(self).temp_buf@ == old(self).temp_buf@.skip(r@.len() as int),
            r@ + final(self).temp_buf@ == old(self).temp_buf@,
            final(self).handshake_done == old(self).handshake_done,
            final(self).finished == old(self).finished,
    {
        let count: usize = if self.temp_buf.len() <= room {
            self.temp_buf.len()
        } else {
            room
        };
        let rest = self.temp_buf.split_off(count);
        let mut out = rest;
        std::mem::swap(&mut out, &mut self.temp_buf);
        assert(out@ =~= old(self).temp_buf@.take(count as int));
        assert(self.temp_buf@ =~= old(self).temp_buf@.skip(count as int));
        assert(out@ + self.temp_buf@ =~= old(self).temp_buf@);
        out
    }

    /// How a read goes on after pulling ciphertext.
    pub fn after_pull(&self, pulled: Pulled) -> (r: AfterPull)
        ensures
            r == after_pull_of(self.temp_buf@.len(), pulled),
            (r == AfterPull::Eof || r == AfterPull::Block) ==> self.temp_buf@.len() == 0,
    {
        let buffered: bool = self.temp_buf.len() > 0;
        match pulled {
            Pulled::WouldBlock => if buffered {
                AfterPull::Deliver
            } else {
                AfterPull::Block
            },
            Pulled::Closed => if buffered {
                AfterPull::Deliver
            } else {
                AfterPull::Eof
            },
            Pulled::Failed => AfterPull::Fail,
            Pulled::Data => AfterPull::Process,
        }
    }

    /// Whether the handshake data is still to be written out; it is noted
    /// as done.
    pub fn perform_handshake(&mut self) -> (due: bool)
        ensures
            due == !old(self).handshake_done,
            final(self).handshake_done,
            final(self).finished == old(self).finished,
            final(self).temp_buf == old(self).temp_buf,
    {
        let due: bool = !self.handshake_done;
        self.handshake_done = true;
        due
    }

    /// Buffers plaintext that the engine produced, behind what is there.
    pub fn absorb(&mut self, plaintext: &[u8])
        ensures
            final(self).temp_buf@ == old(self).temp_buf@ + plaintext@,
            final(self).handshake_done == old(self).handshake_done,
            final(self).finished == old(self).finished,
    {
        self.temp_buf.extend_from_slice(plaintext);
    }

    /// How a read ends after the engine's plaintext was drained into the
    /// buffer, `wants_read` saying whether the engine asks for more
    /// ciphertext.
    pub fn after_drain(&self, wants_read: bool) -> (r: AfterDrain)
        ensures
            r == after_drain_of(self.temp_buf@.len(), wants_read),
            (r == AfterDrain::Eof || r == AfterDrain::Retry) ==> self.temp_buf@.len() == 0,
    {
        if self.temp_buf.len() > 0 {
            AfterDrain::Deliver
        } else if wants_read {
            AfterDrain::Retry
        } else {
            AfterDrain::Eof
        }
    }

    /// Begins a write once the engine's pending output is flushed: the byte
    /// that a blocked write held back counts as written first. Returns how
    /// many bytes of the presented buffer are thereby accounted for.
    pub fn write(&mut self) -> (carried: usize)
        ensures
            carried == carried_over(old(self).finished),
            final(self).finished,
            final(self).handshake_done == old(self).handshake_done,
            final(self).temp_buf == old(self).temp_buf,
    {
        if !self.finished {
            self.finished = true;
            1
        } else {
            0
        }
    }

    /// Ends a write whose socket blocked after the engine held
    /// `total_written` bytes of the presented buffer: one byte less is
    /// reported, and the byte held back is noted.
    pub fn blocked(&mut self, total_written: usize) -> (reported: usize)
        ensures
            (reported as nat, final(self).finished) == write_outcome(total_written as nat, true),
            reported + carried_over(final(self).finished) == total_written,
            final(self).handshake_done == old(self).handshake_done,
            final(self).temp_buf == old(self).temp_buf,
    {
        if total_written > 0 {
            self.finished = false;
            total_written - 1
        } else {
            self.finished = true;
            0
        }
    }

    /// Ends a write that the socket took whole, the engine holding
    /// `total_written` bytes of the presented buffer: all are reported and
    /// none is held back.
    pub fn completed(&mut self, total_written: usize) -> (reported: usize)
        ensures
            (reported as nat, final(self).finished) == write_outcome(total_written as nat, false),
            reported == total_written,
            final(self).handshake_done == old(self).handshake_done,
            final(self).temp_buf == old(self).temp_buf,
    {
        self.finished = true;
        total_written
    }
}

/// The policy of a client that takes any certificate: it checks nothing,
/// and names the signature schemes that it lets pass.
pub struct NoCertificateVerification;

/// The signature schemes that the client lets pass, by their code points in
/// the order of preference.
pub open spec fn accepted_schemes() -> Seq<u16> {
    seq![0x0804u16, 0x0805, 0x0806, 0x0401, 0x0501, 0x0601, 0x0403, 0x0503, 0x0603, 0x0807]
}

impl NoCertificateVerification {
    /// The code points of the signature schemes that the client lets pass:
    /// RSA-PSS and RSA-PKCS1 with SHA-256, SHA-384 and SHA-512, ECDSA on the
    /// three NIST curves, and Ed25519.
    pub fn supported_verify_schemes() -> (r: Vec<u16>)
        ensures
            r@ == accepted_schemes(),
    {
        let mut out: Vec<u16> = Vec::new();
        out.push(0x0804);
        out.push(0x0805);
        out.push(0x0806);
        out.push(0x0401);
        out.push(0x0501);
        out.push(0x0601);
        out.push(0x0403);
        out.push(0x0503);
        out.push(0x0603);
        out.push(0x0807);
        assert(out@ =~= accepted_schemes());
        out
    }
}

} // verus!
