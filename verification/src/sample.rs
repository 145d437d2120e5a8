//! One ping of a recording, and a whole recording as the pings it holds.
//!
//! A ping is stored as the marker and its counter, the header, and the five
//! sample arrays, in that order. A recording is pings one after the other up
//! to its last byte. A failure anywhere ends the decode: nothing is skipped
//! and no partial result is given.

use vstd::prelude::*;
use vstd::slice::slice_subrange;
use crate::channels::{
    channels_bytes, channels_fit, lemma_channels_round_trip, parse_channels,
    take_sys3000_data_channels, ChannelsView, System3000DataChannels,
};
use crate::error::DecodeError;
use crate::header::{
    header_bytes, lemma_header_round_trip, parse_header, DataPageHeader, HEADER_LEN,
};
use crate::marker::{
    has_marker, lemma_marker_round_trip, lemma_scan_consumes, marker_bytes, push_marker,
    scan_marker, take_until_ping_marker, COUNTER_LEN, MARKER_LEN,
};
use crate::wire::u32_bytes;

verus! {

/// One ping: what stood behind its marker, its header and its samples.
#[derive(Clone, Debug, PartialEq, Eq)]
pub struct System3000Sample {
    /// The 32-bit word between the marker and the header. Nothing in the
    /// decode depends on it; it is kept as it was read.
    pub post_marker_counter: u32,
    pub header: DataPageHeader,
    pub data: System3000DataChannels,
}

/// One ping, with its samples as sequences.
pub struct SampleView {
    pub post_marker_counter: u32,
    pub header: DataPageHeader,
    pub data: ChannelsView,
}

impl View for System3000Sample {
    type V = SampleView;

    open spec fn view(&self) -> SampleView {
        SampleView {
            post_marker_counter: self.post_marker_counter,
            header: self.header,
            data: self.data@,
        }
    }
}

/// The pings of `v`, each by its view.
pub open spec fn samples_view(v: Seq<System3000Sample>) -> Seq<SampleView> {
    v.map_values(|r: System3000Sample| r@)
}

/// What decoding one ping from `s` gives: the bytes after the ping and the
/// ping, or the error of the first stage that failed. The stages are the
/// marker scan, the header and the sample arrays, in that order. The scan
/// stops right behind the marker; the header begins behind the four bytes of
/// the counter that the scan read.
#[verifier::opaque]
pub open spec fn parse_sample(s: Seq<u8>) -> Result<(Seq<u8>, SampleView), DecodeError> {
    match scan_marker(s) {
        Err(e) => Err(e),
        Ok((s1, post_marker_counter)) => match parse_header(s1.skip(COUNTER_LEN as int)) {
            Err(e) => Err(e),
            Ok((s2, header)) => match parse_channels(s2) {
                Err(e) => Err(e),
                Ok((s3, data)) => Ok((s3, SampleView { post_marker_counter, header, data })),
            },
        },
    }
}

/// A decoded ping leaves fewer bytes than there were.
pub proof fn lemma_sample_consumes(s: Seq<u8>)
    ensures
        match parse_sample(s) {
            Ok((rest, _)) => rest.len() + MARKER_LEN + COUNTER_LEN + HEADER_LEN <= s.len(),
            Err(_) => true,
        },
{
    reveal(parse_sample);
    lemma_scan_consumes(s);
}

/// What decoding a whole recording gives: its pings in the order of the
/// bytes, or the first error. The empty recording holds no ping; any other
/// must decode ping after ping up to its last byte.
pub open spec fn parse_stream(s: Seq<u8>) -> Result<Seq<SampleView>, DecodeError>
    decreases s.len(),
    via parse_stream_decreases
{
    if s.len() == 0 {
        Ok(Seq::empty())
    } else {
        match parse_sample(s) {
            Err(e) => Err(e),
            Ok((rest, first)) => match parse_stream(rest) {
                Err(e) => Err(e),
                Ok(more) => Ok(seq![first] + more),
            },
        }
    }
}

#[via_fn]
proof fn parse_stream_decreases(s: Seq<u8>) {
    lemma_sample_consumes(s);
}

/// Bytes that hold no marker hold no ping: unless there are no bytes at all,
/// decoding them is a framing error.
pub proof fn lemma_no_marker_no_ping(s: Seq<u8>)
    requires
        !has_marker(s),
    ensures
        parse_sample(s) == Err::<(Seq<u8>, SampleView), DecodeError>(DecodeError::FramingError),
        s.len() > 0 ==> parse_stream(s) == Err::<Seq<SampleView>, DecodeError>(
            DecodeError::FramingError,
        ),
{
    reveal(parse_sample);
}

/// Decodes the next ping of `b`: passes over everything up to its marker,
/// keeps the counter behind it and passes over the counter's four bytes,
/// then decodes the header and the five sample arrays, and returns the ping
/// with the bytes after it. The first stage that fails gives the error.
pub fn take_sys3000_sample(b: &[u8]) -> (r: Result<(&[u8], System3000Sample), DecodeError>)
    ensures
        match r {
            Ok((rest, sample)) => parse_sample(b@) == Ok::<(Seq<u8>, SampleView), DecodeError>(
                (rest@, sample@),
            ),
            Err(e) => parse_sample(b@) == Err::<(Seq<u8>, SampleView), DecodeError>(e),
        },
{
    proof {
        reveal(parse_sample);
    }
    let (b1, post_marker_counter) = match take_until_ping_marker(b) {
        Ok(found) => found,
        Err(e) => {
            return Err(e);
        },
    };
    proof {
        lemma_scan_consumes(b@);
    }
    let after_counter = slice_subrange(b1, COUNTER_LEN, b1.len());
    let (b2, header) = match DataPageHeader::parse(after_counter) {
        Ok(found) => found,
        Err(e) => {
            return Err(e);
        },
    };
    let (b3, data) = match take_sys3000_data_channels(b2) {
        Ok(found) => found,
        Err(e) => {
            return Err(e);
        },
    };
    Ok((b3, System3000Sample { post_marker_counter, header, data }))
}

/// The pings decoded so far, followed by what the rest decodes to.
pub open spec fn followed_by(
    done: Seq<SampleView>,
    rest: Result<Seq<SampleView>, DecodeError>,
) -> Result<Seq<SampleView>, DecodeError> {
    match rest {
        Ok(more) => Ok(done + more),
        Err(e) => Err(e),
    }
}

/// Decodes a whole recording into its pings, in the order of the bytes. The
/// decode ends when every byte is consumed. Any failure is the result of the
/// whole decode: no ping decoded before it is returned.
pub fn decode_stream(b: &[u8]) -> (r: Result<Vec<System3000Sample>, DecodeError>)
    ensures
        match r {
            Ok(v) => parse_stream(b@) == Ok::<Seq<SampleView>, DecodeError>(samples_view(v@)),
            Err(e) => parse_stream(b@) == Err::<Seq<SampleView>, DecodeError>(e),
        },
{
    let mut out: Vec<System3000Sample> = Vec::new();
    let mut rest: &[u8] = b;
    assert(samples_view(out@) + Seq::<SampleView>::empty() =~= Seq::<SampleView>::empty());
    while rest.len() > 0
        invariant
            parse_stream(b@) == followed_by(samples_view(out@), parse_stream(rest@)),
        decreases rest.len(),
    {
        let ghost done = samples_view(out@);
        match take_sys3000_sample(rest) {
            Err(e) => {
                return Err(e);
            },
            Ok((after, sample)) => {
                proof {
                    lemma_sample_consumes(rest@);
                }
                out.push(sample);
                proof {
                    assert(samples_view(out@) =~= done.push(sample@));
                    match parse_stream(after@) {
                        Ok(more) => {
                            assert(done + (seq![sample@] + more) =~= done.push(sample@) + more);
                        },
                        Err(_) => {},
                    }
                }
                rest = after;
            },
        }
    }
    proof {
        assert(samples_view(out@) + Seq::<SampleView>::empty() =~= samples_view(out@));
    }
    Ok(out)
}

/// The bytes that a ping is written as: marker and counter, header, arrays.
#[verifier::opaque]
pub open spec fn sample_bytes(r: SampleView) -> Seq<u8> {
    marker_bytes(r.post_marker_counter) + header_bytes(r.header) + channels_bytes(r.data)
}

/// The bytes of a recording that holds the pings `rs` in order and nothing
/// else.
pub open spec fn stream_bytes(rs: Seq<SampleView>) -> Seq<u8>
    decreases rs.len(),
{
    if rs.len() == 0 {
        Seq::<u8>::empty()
    } else {
        sample_bytes(rs.first()) + stream_bytes(rs.drop_first())
    }
}

/// Every ping of `rs` has arrays short enough for their count fields.
pub open spec fn all_fit(rs: Seq<SampleView>) -> bool {
    forall|i: int| 0 <= i < rs.len() ==> channels_fit(#[trigger] rs[i].data)
}

/// Encoding a ping and decoding it gives the same ping, whatever bytes follow,
/// and leaves exactly those bytes.
pub proof fn lemma_sample_round_trip(r: SampleView, tail: Seq<u8>)
    requires
        channels_fit(r.data),
    ensures
        sample_bytes(r).len() > 0,
        parse_sample(sample_bytes(r) + tail) == Ok::<(Seq<u8>, SampleView), DecodeError>(
            (tail, r),
        ),
{
    reveal(parse_sample);
    reveal(sample_bytes);
    let m = marker_bytes(r.post_marker_counter);
    let h = header_bytes(r.header);
    let c = channels_bytes(r.data);
    let after_header = c + tail;
    let after_marker = h + after_header;
    assert(sample_bytes(r) + tail =~= m + after_marker);
    lemma_marker_round_trip(r.post_marker_counter, after_marker);
    assert((u32_bytes(r.post_marker_counter) + after_marker).skip(COUNTER_LEN as int)
        =~= after_marker);
    lemma_header_round_trip(r.header, after_header);
    lemma_channels_round_trip(r.data, tail);
}

/// A ping decoded from bytes that are there, followed by what the rest
/// decodes to, is what the whole decodes to.
proof fn lemma_stream_unfolds(s: Seq<u8>, rest: Seq<u8>, first: SampleView)
    requires
        s.len() > 0,
        parse_sample(s) == Ok::<(Seq<u8>, SampleView), DecodeError>((rest, first)),
    ensures
        parse_stream(s) == followed_by(seq![first], parse_stream(rest)),
{
}

/// A recording made of valid pings written one after the other decodes to
/// exactly those pings, in the order in which they were written.
pub proof fn lemma_stream_round_trip(rs: Seq<SampleView>)
    requires
        all_fit(rs),
    ensures
        parse_stream(stream_bytes(rs)) == Ok::<Seq<SampleView>, DecodeError>(rs),
    decreases rs.len(),
{
    if rs.len() == 0 {
        assert(rs =~= Seq::<SampleView>::empty());
    } else {
        let first = rs.first();
        let later = rs.drop_first();
        assert(channels_fit(rs[0].data));
        assert forall|i: int| 0 <= i < later.len() implies channels_fit(
            #[trigger] later[i].data,
        ) by {
            assert(later[i] == rs[i + 1]);
        }
        lemma_sample_round_trip(first, stream_bytes(later));
        lemma_stream_round_trip(later);
        lemma_stream_unfolds(stream_bytes(rs), stream_bytes(later), first);
        assert(seq![first] + later =~= rs);
    }
}

impl System3000Sample {
    /// Writes the ping as it stands in a recording. There is no encoding where
    /// an array is longer than its count field can say.
    pub fn encode(&self) -> (r: Option<Vec<u8>>)
        ensures
            match r {
                Some(out) => channels_fit(self@.data) && out@ == sample_bytes(self@),
                None => !channels_fit(self@.data),
            },
    {
        let mut arrays = match self.data.encode() {
            Some(bytes) => bytes,
            None => {
                return None;
            },
        };
        let mut header = self.header.encode();
        let mut out: Vec<u8> = Vec::new();
        push_marker(&mut out, self.post_marker_counter);
        out.append(&mut header);
        out.append(&mut arrays);
        proof {
            reveal(sample_bytes);
        }
        assert(out@ =~= sample_bytes(self@));
        Some(out)
    }
}

} // verus!
