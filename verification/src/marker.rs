//! Finding where the next ping starts.
//!
//! Every ping opens with a marker of four bytes with all bits set, followed by
//! a 32-bit counter. A recording may hold anything before a marker; the
//! scanner passes over it and over the marker, and stops there: it reads the
//! counter but leaves its four bytes in place for the caller to pass over.

use vstd::prelude::*;
use vstd::slice::slice_subrange;
use crate::error::DecodeError;
use crate::wire::{
    le_u32, lemma_u32_kept_by_append, lemma_u32_written_then_read, push_u32, read_u32, u32_bytes,
};

verus! {

/// The value of each of the four bytes of the marker.
pub const MARKER_BYTE: u8 = 0xFF;

/// Number of bytes of the marker.
pub const MARKER_LEN: usize = 4;

/// Number of bytes of the counter that follows the marker.
pub const COUNTER_LEN: usize = 4;

/// The marker stands in `s` at `i`.
pub open spec fn marker_at(s: Seq<u8>, i: int) -> bool {
    &&& 0 <= i
    &&& i + MARKER_LEN <= s.len()
    &&& s[i] == MARKER_BYTE
    &&& s[i + 1] == MARKER_BYTE
    &&& s[i + 2] == MARKER_BYTE
    &&& s[i + 3] == MARKER_BYTE
}

/// The first marker of `s` stands at `i`.
pub open spec fn first_marker_at(s: Seq<u8>, i: int) -> bool {
    marker_at(s, i) && forall|j: int| 0 <= j < i ==> !marker_at(s, j)
}

/// `s` holds a marker somewhere.
pub open spec fn has_marker(s: Seq<u8>) -> bool {
    exists|i: int| marker_at(s, i)
}

/// Where the first marker of `s` stands, if `s` holds one.
pub open spec fn first_marker(s: Seq<u8>) -> int {
    choose|i: int| first_marker_at(s, i)
}

/// What scanning `s` for the next ping gives: the bytes that begin right
/// behind the first marker, and the counter that their first four bytes hold.
/// The counter's bytes are still part of what is returned.
///
/// It is a framing error where `s` holds no marker. It is a framing error too
/// where fewer than four bytes stand behind the first marker: a marker
/// without its counter opens no ping, and there is no counter to return.
pub open spec fn scan_marker(s: Seq<u8>) -> Result<(Seq<u8>, u32), DecodeError> {
    let at = first_marker(s);
    if has_marker(s) && at + MARKER_LEN + COUNTER_LEN <= s.len() {
        Ok((s.skip(at + MARKER_LEN), le_u32(s, at + MARKER_LEN)))
    } else {
        Err(DecodeError::FramingError)
    }
}

/// The first marker stands at `i` and nowhere else.
pub proof fn lemma_first_marker_is(s: Seq<u8>, i: int)
    requires
        first_marker_at(s, i),
    ensures
        has_marker(s),
        first_marker(s) == i,
{
    let at = first_marker(s);
    assert(first_marker_at(s, at));
    if at < i {
        assert(!marker_at(s, at));
    }
    if i < at {
        assert(!marker_at(s, i));
    }
}

/// Passes over everything up to and including the next marker, and returns
/// the bytes that begin right behind the marker together with the counter
/// that their first four bytes hold. The counter is read and not consumed: a
/// caller that goes on to the header passes over `COUNTER_LEN` bytes first.
/// Nothing is checked of what follows the counter.
///
/// Fails with a framing error where no marker stands before the end of `b`,
/// and also where the first marker has fewer than four bytes behind it.
pub fn take_until_ping_marker(b: &[u8]) -> (r: Result<(&[u8], u32), DecodeError>)
    ensures
        match r {
            Ok((rest, counter)) => scan_marker(b@) == Ok::<(Seq<u8>, u32), DecodeError>(
                (rest@, counter),
            ),
            Err(e) => scan_marker(b@) == Err::<(Seq<u8>, u32), DecodeError>(e),
        },
{
    let n: usize = b.len();
    let mut i: usize = 0;
    while n - i >= MARKER_LEN
        invariant
            n == b.len(),
            i <= n,
            forall|j: int| 0 <= j < i ==> !marker_at(b@, j),
        decreases n - i,
    {
        if b[i] == MARKER_BYTE && b[i + 1] == MARKER_BYTE && b[i + 2] == MARKER_BYTE && b[i + 3]
            == MARKER_BYTE {
            proof {
                lemma_first_marker_is(b@, i as int);
            }
            if n - i < MARKER_LEN + COUNTER_LEN {
                return Err(DecodeError::FramingError);
            }
            let counter: u32 = read_u32(b, i + MARKER_LEN);
            let rest = slice_subrange(b, i + MARKER_LEN, n);
            return Ok((rest, counter));
        }
        i += 1;
    }
    proof {
        assert forall|j: int| !marker_at(b@, j) by {
            if 0 <= j < i {
            }
        }
    }
    Err(DecodeError::FramingError)
}

/// Where a marker stands at `i` and none stands before `k`, with `k` no later
/// than `i`, there is a first marker, and it stands no later than `i`.
proof fn lemma_first_marker_from(s: Seq<u8>, i: int, k: int)
    requires
        marker_at(s, i),
        0 <= k <= i,
        forall|j: int| 0 <= j < k ==> !marker_at(s, j),
    ensures
        first_marker_at(s, first_marker(s)),
        first_marker(s) <= i,
    decreases i - k,
{
    if marker_at(s, k) {
        assert(first_marker_at(s, k));
        lemma_first_marker_is(s, k);
    } else {
        lemma_first_marker_from(s, i, k + 1);
    }
}

/// Where `s` holds a marker it holds a first one, inside `s`.
pub proof fn lemma_first_marker_exists(s: Seq<u8>)
    requires
        has_marker(s),
    ensures
        first_marker_at(s, first_marker(s)),
{
    let i = choose|i: int| marker_at(s, i);
    lemma_first_marker_from(s, i, 0);
}

/// A successful scan leaves fewer bytes than it was given, since at least the
/// marker is gone, and it leaves at least the bytes of the counter.
pub proof fn lemma_scan_consumes(s: Seq<u8>)
    ensures
        match scan_marker(s) {
            Ok((rest, _)) => COUNTER_LEN <= rest.len() && rest.len() + MARKER_LEN <= s.len(),
            Err(e) => e == DecodeError::FramingError,
        },
{
    if has_marker(s) {
        lemma_first_marker_exists(s);
    }
}

/// The eight bytes that open a ping: the marker, then the counter.
pub open spec fn marker_bytes(counter: u32) -> Seq<u8> {
    seq![MARKER_BYTE, MARKER_BYTE, MARKER_BYTE, MARKER_BYTE] + u32_bytes(counter)
}

/// Scanning what begins with a marker and a counter finds that marker, reads
/// that counter, and leaves the bytes of the counter followed by exactly what
/// follows them.
pub proof fn lemma_marker_round_trip(counter: u32, tail: Seq<u8>)
    ensures
        marker_bytes(counter).len() == MARKER_LEN + COUNTER_LEN,
        u32_bytes(counter).len() == COUNTER_LEN,
        scan_marker(marker_bytes(counter) + tail) == Ok::<(Seq<u8>, u32), DecodeError>(
            (u32_bytes(counter) + tail, counter),
        ),
{
    let m = seq![MARKER_BYTE, MARKER_BYTE, MARKER_BYTE, MARKER_BYTE];
    let s = marker_bytes(counter) + tail;
    lemma_u32_written_then_read(m, counter);
    lemma_u32_kept_by_append(marker_bytes(counter), tail, 4);
    assert(first_marker_at(s, 0));
    lemma_first_marker_is(s, 0);
    assert(s.skip(4) =~= u32_bytes(counter) + tail);
}

/// Appends the marker and the counter that open a ping.
pub fn push_marker(out: &mut Vec<u8>, counter: u32)
    ensures
        final(out)@ == old(out)@ + marker_bytes(counter),
{
    out.push(MARKER_BYTE);
    out.push(MARKER_BYTE);
    out.push(MARKER_BYTE);
    out.push(MARKER_BYTE);
    push_u32(out, counter);
    assert(out@ =~= old(out)@ + marker_bytes(counter));
}

} // verus!
