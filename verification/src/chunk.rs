//! Chunk framing: the last byte of every chunk says whether another follows.

use crate::error::ProtocolError;
use vstd::prelude::*;

verus! {

/// Last byte of a chunk that another chunk follows.
pub const CONTINUE_FLAG: u8 = 0x00;

/// Last byte of the chunk that ends a cycle.
pub const LAST_FLAG: u8 = 0xFF;

/// What the last byte of a chunk announces.
#[derive(Clone, Copy, Debug, PartialEq, Eq, Structural)]
pub enum Terminator {
    /// Another chunk follows.
    Continue,
    /// The cycle ends with this chunk.
    Last,
}

/// The flag byte that stands for a terminator.
pub open spec fn flag_of(t: Terminator) -> u8 {
    match t {
        Terminator::Continue => CONTINUE_FLAG,
        Terminator::Last => LAST_FLAG,
    }
}

/// What a flag byte announces; every byte but the two flags is a framing
/// error.
pub open spec fn terminator_of(flag: u8) -> Result<Terminator, ProtocolError> {
    if flag == CONTINUE_FLAG {
        Ok(Terminator::Continue)
    } else if flag == LAST_FLAG {
        Ok(Terminator::Last)
    } else {
        Err(ProtocolError::BadTerminator)
    }
}

/// The terminator of the chunk at position `index` in a cycle of `total`
/// chunks: only the final chunk ends the cycle.
pub open spec fn counted_terminator(index: nat, total: nat) -> Terminator {
    if index + 1 >= total {
        Terminator::Last
    } else {
        Terminator::Continue
    }
}

/// The terminator of a chunk that is begun `elapsed_ns` into a cycle meant
/// to last `duration_ns`: the first chunk begun at or after the deadline
/// ends the cycle.
pub open spec fn timed_terminator(elapsed_ns: nat, duration_ns: nat) -> Terminator {
    if elapsed_ns >= duration_ns {
        Terminator::Last
    } else {
        Terminator::Continue
    }
}

/// The flag byte for a terminator.
pub fn flag(t: Terminator) -> (r: u8)
    ensures
        r == flag_of(t),
        r == CONTINUE_FLAG || r == LAST_FLAG,
        terminator_of(r) == Ok::<Terminator, ProtocolError>(t),
{
    match t {
        Terminator::Continue => CONTINUE_FLAG,
        Terminator::Last => LAST_FLAG,
    }
}

/// Reads a flag byte.
pub fn classify(flag: u8) -> (r: Result<Terminator, ProtocolError>)
    ensures
        r == terminator_of(flag),
        r.is_ok() <==> (flag == CONTINUE_FLAG || flag == LAST_FLAG),
{
    if flag == CONTINUE_FLAG {
        Ok(Terminator::Continue)
    } else if flag == LAST_FLAG {
        Ok(Terminator::Last)
    } else {
        Err(ProtocolError::BadTerminator)
    }
}

/// The terminator for chunk number `index` (from zero) of `total`.
pub fn counted(index: u32, total: u32) -> (r: Terminator)
    ensures
        r == counted_terminator(index as nat, total as nat),
{
    if index >= total || total - index <= 1 {
        Terminator::Last
    } else {
        Terminator::Continue
    }
}

/// The terminator for a chunk begun `elapsed_ns` into a cycle of
/// `duration_ns`.
pub fn timed(elapsed_ns: u64, duration_ns: u64) -> (r: Terminator)
    ensures
        r == timed_terminator(elapsed_ns as nat, duration_ns as nat),
{
    if elapsed_ns >= duration_ns {
        Terminator::Last
    } else {
        Terminator::Continue
    }
}

/// The flags of the chunks of a counted cycle, in the order sent.
pub open spec fn counted_flags(total: nat) -> Seq<u8> {
    Seq::new(total, |i: int| flag_of(counted_terminator(i as nat, total)))
}

/// In a counted cycle every chunk carries one of the two flags, all chunks
/// but the final one announce a successor, and the final one ends the cycle.
pub proof fn lemma_counted_cycle(total: nat)
    requires
        total >= 1,
    ensures
        counted_flags(total).len() == total,
        forall|i: int|
            0 <= i < total ==> (#[trigger] counted_flags(total)[i] == CONTINUE_FLAG) != (
            counted_flags(total)[i] == LAST_FLAG),
        forall|i: int| 0 <= i < total - 1 ==> #[trigger] counted_flags(total)[i] == CONTINUE_FLAG,
        counted_flags(total)[total - 1] == LAST_FLAG,
{
}

/// A receiver accepts exactly the two flags, and reads back the terminator
/// that the sender meant.
pub proof fn lemma_flag_round_trip(t: Terminator, byte: u8)
    ensures
        terminator_of(flag_of(t)) == Ok::<Terminator, ProtocolError>(t),
        terminator_of(byte).is_ok() <==> (byte == CONTINUE_FLAG || byte == LAST_FLAG),
        terminator_of(byte) == Ok::<Terminator, ProtocolError>(t) ==> byte == flag_of(t),
{
}

} // verus!
