//! The five sample arrays that follow the header of a ping.
//!
//! Each array is stored as a count followed by that many samples, all
//! little-endian. The four sonar arrays have a 16-bit count and 16-bit
//! samples; the sub-bottom profiler has a 32-bit count and 32-bit samples. The
//! order is fixed, and any of them may be empty.

use vstd::prelude::*;
use vstd::slice::slice_subrange;
use crate::error::{Channel, DecodeError};
use crate::wire::{
    le_u16, le_u32, lemma_u16_kept_by_append, lemma_u16_past_prefix,
    lemma_u16_written_then_read, lemma_u32_kept_by_append, lemma_u32_past_prefix,
    lemma_u32_written_then_read, push_u16, push_u32, read_u16, read_u32, u16_bytes, u32_bytes,
};

verus! {

/// Largest number of samples that a sonar array can declare.
pub const MAX_SONAR_SAMPLES: usize = 0xFFFF;

/// Largest number of samples that the sub-bottom profiler array can declare.
pub const MAX_PROFILER_SAMPLES: usize = 0xFFFF_FFFF;

/// The sample arrays of one ping.
#[derive(Clone, Debug, PartialEq, Eq)]
pub struct System3000DataChannels {
    /// Port side, low frequency band.
    pub portlf: Vec<u16>,
    /// Starboard side, low frequency band.
    pub stbdlf: Vec<u16>,
    /// Port side, high frequency band.
    pub porthf: Vec<u16>,
    /// Starboard side, high frequency band.
    pub stbdhf: Vec<u16>,
    /// Sub-bottom profiler.
    pub sbp: Vec<u32>,
}

/// The sample arrays of one ping as sequences.
pub struct ChannelsView {
    pub portlf: Seq<u16>,
    pub stbdlf: Seq<u16>,
    pub porthf: Seq<u16>,
    pub stbdhf: Seq<u16>,
    pub sbp: Seq<u32>,
}

impl View for System3000DataChannels {
    type V = ChannelsView;

    open spec fn view(&self) -> ChannelsView {
        ChannelsView {
            portlf: self.portlf@,
            stbdlf: self.stbdlf@,
            porthf: self.porthf@,
            stbdhf: self.stbdhf@,
            sbp: self.sbp@,
        }
    }
}

/// What decoding a 16-bit array from the front of `s` gives: the bytes after
/// the array and its samples, or nothing where the bytes run out.
pub open spec fn parse_samples16(s: Seq<u8>) -> Option<(Seq<u8>, Seq<u16>)> {
    if s.len() < 2 || s.len() < 2 + 2 * le_u16(s, 0) {
        None
    } else {
        let n = le_u16(s, 0) as int;
        Some((s.skip(2 + 2 * n), Seq::new(n as nat, |i: int| le_u16(s, 2 + 2 * i))))
    }
}

/// What decoding a 32-bit array from the front of `s` gives: the bytes after
/// the array and its samples, or nothing where the bytes run out.
pub open spec fn parse_samples32(s: Seq<u8>) -> Option<(Seq<u8>, Seq<u32>)> {
    if s.len() < 4 || s.len() < 4 + 4 * le_u32(s, 0) {
        None
    } else {
        let n = le_u32(s, 0) as int;
        Some((s.skip(4 + 4 * n), Seq::new(n as nat, |i: int| le_u32(s, 4 + 4 * i))))
    }
}

/// What decoding the five arrays from the front of `s` gives: the bytes after
/// the fifth array and the arrays, or the error that names the first array in
/// which the bytes run out.
pub open spec fn parse_channels(s: Seq<u8>) -> Result<(Seq<u8>, ChannelsView), DecodeError> {
    match parse_samples16(s) {
        None => Err(DecodeError::TruncatedChannelError { channel: Channel::PortLowFrequency }),
        Some((s1, portlf)) => match parse_samples16(s1) {
            None => Err(
                DecodeError::TruncatedChannelError { channel: Channel::StarboardLowFrequency },
            ),
            Some((s2, stbdlf)) => match parse_samples16(s2) {
                None => Err(
                    DecodeError::TruncatedChannelError { channel: Channel::PortHighFrequency },
                ),
                Some((s3, porthf)) => match parse_samples16(s3) {
                    None => Err(
                        DecodeError::TruncatedChannelError {
                            channel: Channel::StarboardHighFrequency,
                        },
                    ),
                    Some((s4, stbdhf)) => match parse_samples32(s4) {
                        None => Err(
                            DecodeError::TruncatedChannelError {
                                channel: Channel::SubBottomProfiler,
                            },
                        ),
                        Some((s5, sbp)) => Ok(
                            (s5, ChannelsView { portlf, stbdlf, porthf, stbdhf, sbp }),
                        ),
                    },
                },
            },
        },
    }
}

/// Decodes one 16-bit array: its count, then that many samples.
pub fn take_samples16(b: &[u8]) -> (r: Option<(&[u8], Vec<u16>)>)
    ensures
        match r {
            Some((rest, v)) => parse_samples16(b@) == Some((rest@, v@)),
            None => parse_samples16(b@) == None::<(Seq<u8>, Seq<u16>)>,
        },
{
    let len: usize = b.len();
    if len < 2 {
        return None;
    }
    let n: usize = read_u16(b, 0) as usize;
    if (len - 2) / 2 < n {
        return None;
    }
    let mut v: Vec<u16> = Vec::new();
    let mut i: usize = 0;
    while i < n
        invariant
            len == b.len(),
            i <= n,
            2 + 2 * n <= len,
            v@ == Seq::new(i as nat, |k: int| le_u16(b@, 2 + 2 * k)),
        decreases n - i,
    {
        let x: u16 = read_u16(b, 2 + 2 * i);
        v.push(x);
        i += 1;
        assert(v@ =~= Seq::new(i as nat, |k: int| le_u16(b@, 2 + 2 * k)));
    }
    let rest = slice_subrange(b, 2 + 2 * n, len);
    Some((rest, v))
}

/// Decodes one 32-bit array: its count, then that many samples.
pub fn take_samples32(b: &[u8]) -> (r: Option<(&[u8], Vec<u32>)>)
    ensures
        match r {
            Some((rest, v)) => parse_samples32(b@) == Some((rest@, v@)),
            None => parse_samples32(b@) == None::<(Seq<u8>, Seq<u32>)>,
        },
{
    let len: usize = b.len();
    if len < 4 {
        return None;
    }
    let n: usize = read_u32(b, 0) as usize;
    if (len - 4) / 4 < n {
        return None;
    }
    let mut v: Vec<u32> = Vec::new();
    let mut i: usize = 0;
    while i < n
        invariant
            len == b.len(),
            i <= n,
            4 + 4 * n <= len,
            v@ == Seq::new(i as nat, |k: int| le_u32(b@, 4 + 4 * k)),
        decreases n - i,
    {
        let x: u32 = read_u32(b, 4 + 4 * i);
        v.push(x);
        i += 1;
        assert(v@ =~= Seq::new(i as nat, |k: int| le_u32(b@, 4 + 4 * k)));
    }
    let rest = slice_subrange(b, 4 + 4 * n, len);
    Some((rest, v))
}

/// Decodes the five sample arrays that follow a header, in their fixed order,
/// and returns them with the bytes after the fifth. An array with count zero
/// is empty and takes only its count field. Where the bytes run out, the
/// error names the array in which they did.
pub fn take_sys3000_data_channels(b: &[u8]) -> (r: Result<
    (&[u8], System3000DataChannels),
    DecodeError,
>)
    ensures
        match r {
            Ok((rest, c)) => parse_channels(b@) == Ok::<(Seq<u8>, ChannelsView), DecodeError>(
                (rest@, c@),
            ),
            Err(e) => parse_channels(b@) == Err::<(Seq<u8>, ChannelsView), DecodeError>(e),
        },
{
    let (b1, portlf) = match take_samples16(b) {
        Some(found) => found,
        None => {
            return Err(
                DecodeError::TruncatedChannelError { channel: Channel::PortLowFrequency },
            );
        },
    };
    let (b2, stbdlf) = match take_samples16(b1) {
        Some(found) => found,
        None => {
            return Err(
                DecodeError::TruncatedChannelError { channel: Channel::StarboardLowFrequency },
            );
        },
    };
    let (b3, porthf) = match take_samples16(b2) {
        Some(found) => found,
        None => {
            return Err(
                DecodeError::TruncatedChannelError { channel: Channel::PortHighFrequency },
            );
        },
    };
    let (b4, stbdhf) = match take_samples16(b3) {
        Some(found) => found,
        None => {
            return Err(
                DecodeError::TruncatedChannelError { channel: Channel::StarboardHighFrequency },
            );
        },
    };
    let (b5, sbp) = match take_samples32(b4) {
        Some(found) => found,
        None => {
            return Err(
                DecodeError::TruncatedChannelError { channel: Channel::SubBottomProfiler },
            );
        },
    };
    Ok((b5, System3000DataChannels { portlf, stbdlf, porthf, stbdhf, sbp }))
}

/// The bytes of the samples `v` alone, in order, without a count.
pub open spec fn u16s_bytes(v: Seq<u16>) -> Seq<u8>
    decreases v.len(),
{
    if v.len() == 0 {
        Seq::<u8>::empty()
    } else {
        u16s_bytes(v.drop_last()) + u16_bytes(v.last())
    }
}

/// The bytes that a 16-bit array is written as: the count, then the samples.
#[verifier::opaque]
pub open spec fn samples16_bytes(v: Seq<u16>) -> Seq<u8> {
    u16_bytes(v.len() as u16) + u16s_bytes(v)
}

/// The bytes of `v` hold each sample at its place, 2 bytes apart.
pub proof fn lemma_u16s_bytes(v: Seq<u16>)
    ensures
        u16s_bytes(v).len() == 2 * v.len(),
        forall|i: int| 0 <= i < v.len() ==> #[trigger] v[i] == le_u16(u16s_bytes(v), 2 * i),
    decreases v.len(),
{
    if v.len() > 0 {
        let front = v.drop_last();
        let a = u16s_bytes(front);
        lemma_u16s_bytes(front);
        lemma_u16_written_then_read(a, v.last());
        assert forall|i: int| 0 <= i < v.len() implies #[trigger] v[i] == le_u16(
            u16s_bytes(v),
            2 * i,
        ) by {
            if i < front.len() {
                lemma_u16_kept_by_append(a, u16_bytes(v.last()), 2 * i);
                assert(front[i] == v[i]);
            }
        }
    }
}

/// Encoding a 16-bit array and decoding it gives the same samples, whatever
/// bytes follow; the decoder consumes the count field and 2 bytes for each
/// sample, and no more.
pub proof fn lemma_samples16_round_trip(v: Seq<u16>, tail: Seq<u8>)
    requires
        v.len() <= MAX_SONAR_SAMPLES,
    ensures
        samples16_bytes(v).len() == 2 + 2 * v.len(),
        parse_samples16(samples16_bytes(v) + tail) == Some((tail, v)),
{
    reveal(samples16_bytes);
    let n = v.len() as u16;
    let c = u16_bytes(n);
    let e = u16s_bytes(v);
    let s = samples16_bytes(v) + tail;
    lemma_u16s_bytes(v);
    lemma_u16_written_then_read(Seq::<u8>::empty(), n);
    assert(Seq::<u8>::empty() + c =~= c);
    assert(s =~= c + (e + tail));
    lemma_u16_kept_by_append(c, e + tail, 0);
    assert(le_u16(s, 0) == n);
    let got = Seq::new(n as nat, |i: int| le_u16(s, 2 + 2 * i));
    assert forall|i: int| 0 <= i < v.len() implies got[i] == v[i] by {
        lemma_u16_past_prefix(c, e + tail, 2 * i);
        lemma_u16_kept_by_append(e, tail, 2 * i);
    }
    assert(got =~= v);
    assert(s.skip(2 + 2 * (n as int)) =~= tail);
}

/// Appends a 16-bit array: its count, then its samples.
fn push_samples16(out: &mut Vec<u8>, v: &Vec<u16>)
    requires
        v.len() <= MAX_SONAR_SAMPLES,
    ensures
        final(out)@ == old(out)@ + samples16_bytes(v@),
{
    proof {
        reveal(samples16_bytes);
    }
    let n: usize = v.len();
    push_u16(out, n as u16);
    let mut i: usize = 0;
    assert(v@.take(0) =~= Seq::<u16>::empty());
    assert(out@ =~= old(out)@ + (u16_bytes(n as u16) + u16s_bytes(v@.take(0))));
    while i < n
        invariant
            n == v.len(),
            i <= n,
            out@ == old(out)@ + (u16_bytes(n as u16) + u16s_bytes(v@.take(i as int))),
        decreases n - i,
    {
        push_u16(out, v[i]);
        i += 1;
        proof {
            let upto = v@.take(i as int);
            assert(upto.drop_last() =~= v@.take(i - 1));
            assert(upto.last() == v@[i - 1]);
            assert(out@ =~= old(out)@ + (u16_bytes(n as u16) + u16s_bytes(upto)));
        }
    }
    assert(v@.take(n as int) =~= v@);
}

/// The bytes of the samples `v` alone, in order, without a count.
pub open spec fn u32s_bytes(v: Seq<u32>) -> Seq<u8>
    decreases v.len(),
{
    if v.len() == 0 {
        Seq::<u8>::empty()
    } else {
        u32s_bytes(v.drop_last()) + u32_bytes(v.last())
    }
}

/// The bytes that a 32-bit array is written as: the count, then the samples.
#[verifier::opaque]
pub open spec fn samples32_bytes(v: Seq<u32>) -> Seq<u8> {
    u32_bytes(v.len() as u32) + u32s_bytes(v)
}

/// The bytes of `v` hold each sample at its place, 4 bytes apart.
pub proof fn lemma_u32s_bytes(v: Seq<u32>)
    ensures
        u32s_bytes(v).len() == 4 * v.len(),
        forall|i: int| 0 <= i < v.len() ==> #[trigger] v[i] == le_u32(u32s_bytes(v), 4 * i),
    decreases v.len(),
{
    if v.len() > 0 {
        let front = v.drop_last();
        let a = u32s_bytes(front);
        lemma_u32s_bytes(front);
        lemma_u32_written_then_read(a, v.last());
        assert forall|i: int| 0 <= i < v.len() implies #[trigger] v[i] == le_u32(
            u32s_bytes(v),
            4 * i,
        ) by {
            if i < front.len() {
                lemma_u32_kept_by_append(a, u32_bytes(v.last()), 4 * i);
                assert(front[i] == v[i]);
            }
        }
    }
}

/// Encoding a 32-bit array and decoding it gives the same samples, whatever
/// bytes follow; the decoder consumes the count field and 4 bytes for each
/// sample, and no more.
pub proof fn lemma_samples32_round_trip(v: Seq<u32>, tail: Seq<u8>)
    requires
        v.len() <= MAX_PROFILER_SAMPLES,
    ensures
        samples32_bytes(v).len() == 4 + 4 * v.len(),
        parse_samples32(samples32_bytes(v) + tail) == Some((tail, v)),
{
    reveal(samples32_bytes);
    let n = v.len() as u32;
    let c = u32_bytes(n);
    let e = u32s_bytes(v);
    let s = samples32_bytes(v) + tail;
    lemma_u32s_bytes(v);
    lemma_u32_written_then_read(Seq::<u8>::empty(), n);
    assert(Seq::<u8>::empty() + c =~= c);
    assert(s =~= c + (e + tail));
    lemma_u32_kept_by_append(c, e + tail, 0);
    assert(le_u32(s, 0) == n);
    let got = Seq::new(n as nat, |i: int| le_u32(s, 4 + 4 * i));
    assert forall|i: int| 0 <= i < v.len() implies got[i] == v[i] by {
        lemma_u32_past_prefix(c, e + tail, 4 * i);
        lemma_u32_kept_by_append(e, tail, 4 * i);
    }
    assert(got =~= v);
    assert(s.skip(4 + 4 * (n as int)) =~= tail);
}

/// Appends a 32-bit array: its count, then its samples.
fn push_samples32(out: &mut Vec<u8>, v: &Vec<u32>)
    requires
        v.len() <= MAX_PROFILER_SAMPLES,
    ensures
        final(out)@ == old(out)@ + samples32_bytes(v@),
{
    proof {
        reveal(samples32_bytes);
    }
    let n: usize = v.len();
    push_u32(out, n as u32);
    let mut i: usize = 0;
    assert(v@.take(0) =~= Seq::<u32>::empty());
    assert(out@ =~= old(out)@ + (u32_bytes(n as u32) + u32s_bytes(v@.take(0))));
    while i < n
        invariant
            n == v.len(),
            i <= n,
            out@ == old(out)@ + (u32_bytes(n as u32) + u32s_bytes(v@.take(i as int))),
        decreases n - i,
    {
        push_u32(out, v[i]);
        i += 1;
        proof {
            let upto = v@.take(i as int);
            assert(upto.drop_last() =~= v@.take(i - 1));
            assert(upto.last() == v@[i - 1]);
            assert(out@ =~= old(out)@ + (u32_bytes(n as u32) + u32s_bytes(upto)));
        }
    }
    assert(v@.take(n as int) =~= v@);
}

/// Every array of `c` is short enough for its count field.
pub open spec fn channels_fit(c: ChannelsView) -> bool {
    &&& c.portlf.len() <= MAX_SONAR_SAMPLES
    &&& c.stbdlf.len() <= MAX_SONAR_SAMPLES
    &&& c.porthf.len() <= MAX_SONAR_SAMPLES
    &&& c.stbdhf.len() <= MAX_SONAR_SAMPLES
    &&& c.sbp.len() <= MAX_PROFILER_SAMPLES
}

/// The bytes that the five arrays are written as, in their fixed order.
pub open spec fn channels_bytes(c: ChannelsView) -> Seq<u8> {
    samples16_bytes(c.portlf) + samples16_bytes(c.stbdlf) + samples16_bytes(c.porthf)
        + samples16_bytes(c.stbdhf) + samples32_bytes(c.sbp)
}

/// Five pieces and a tail, joined from the left, are the first piece followed
/// by the rest joined in the same way.
proof fn lemma_joined_in_turn(
    a1: Seq<u8>,
    a2: Seq<u8>,
    a3: Seq<u8>,
    a4: Seq<u8>,
    a5: Seq<u8>,
    tail: Seq<u8>,
)
    ensures
        (a1 + a2 + a3 + a4 + a5) + tail == a1 + (a2 + (a3 + (a4 + (a5 + tail)))),
        (a1 + a2 + a3 + a4 + a5).len() == a1.len() + a2.len() + a3.len() + a4.len() + a5.len(),
{
    assert((a1 + a2 + a3 + a4 + a5) + tail =~= a1 + (a2 + (a3 + (a4 + (a5 + tail)))));
}

/// Where the five arrays decode one after the other, each from what the one
/// before left, the five decode together.
proof fn lemma_decoded_in_turn(
    s: Seq<u8>,
    s1: Seq<u8>,
    s2: Seq<u8>,
    s3: Seq<u8>,
    s4: Seq<u8>,
    s5: Seq<u8>,
    c: ChannelsView,
)
    requires
        parse_samples16(s) == Some((s1, c.portlf)),
        parse_samples16(s1) == Some((s2, c.stbdlf)),
        parse_samples16(s2) == Some((s3, c.porthf)),
        parse_samples16(s3) == Some((s4, c.stbdhf)),
        parse_samples32(s4) == Some((s5, c.sbp)),
    ensures
        parse_channels(s) == Ok::<(Seq<u8>, ChannelsView), DecodeError>((s5, c)),
{
}

/// Encoding the five arrays and decoding them gives the same arrays, whatever
/// bytes follow; the decoder consumes what was written and no more.
pub proof fn lemma_channels_round_trip(c: ChannelsView, tail: Seq<u8>)
    requires
        channels_fit(c),
    ensures
        channels_bytes(c).len() == 12 + 2 * (c.portlf.len() + c.stbdlf.len() + c.porthf.len()
            + c.stbdhf.len()) + 4 * c.sbp.len(),
        parse_channels(channels_bytes(c) + tail) == Ok::<(Seq<u8>, ChannelsView), DecodeError>(
            (tail, c),
        ),
{
    let a1 = samples16_bytes(c.portlf);
    let a2 = samples16_bytes(c.stbdlf);
    let a3 = samples16_bytes(c.porthf);
    let a4 = samples16_bytes(c.stbdhf);
    let a5 = samples32_bytes(c.sbp);
    let t4 = a5 + tail;
    let t3 = a4 + t4;
    let t2 = a3 + t3;
    let t1 = a2 + t2;
    lemma_joined_in_turn(a1, a2, a3, a4, a5, tail);
    lemma_samples16_round_trip(c.portlf, t1);
    lemma_samples16_round_trip(c.stbdlf, t2);
    lemma_samples16_round_trip(c.porthf, t3);
    lemma_samples16_round_trip(c.stbdhf, t4);
    lemma_samples32_round_trip(c.sbp, tail);
    lemma_decoded_in_turn(a1 + t1, t1, t2, t3, t4, tail, c);
}

impl System3000DataChannels {
    /// Writes the five arrays, each as its count and its samples. There is no
    /// encoding where an array is longer than its count field can say.
    pub fn encode(&self) -> (r: Option<Vec<u8>>)
        ensures
            match r {
                Some(out) => channels_fit(self@) && out@ == channels_bytes(self@),
                None => !channels_fit(self@),
            },
    {
        if self.portlf.len() > MAX_SONAR_SAMPLES || self.stbdlf.len() > MAX_SONAR_SAMPLES
            || self.porthf.len() > MAX_SONAR_SAMPLES || self.stbdhf.len() > MAX_SONAR_SAMPLES
            || self.sbp.len() > MAX_PROFILER_SAMPLES {
            return None;
        }
        let mut out: Vec<u8> = Vec::new();
        push_samples16(&mut out, &self.portlf);
        push_samples16(&mut out, &self.stbdlf);
        push_samples16(&mut out, &self.porthf);
        push_samples16(&mut out, &self.stbdhf);
        push_samples32(&mut out, &self.sbp);
        assert(out@ =~= channels_bytes(self@));
        Some(out)
    }
}

} // verus!
