//! The ship track: the positions of the pings in order, thinned so that no
//! point repeats the one before it.
//!
//! A point is kept unless it is near the last point that was kept; the first
//! point is always kept. Two points are near each other when their longitudes
//! are close and their latitudes are close. Whether two coordinates are close
//! is a test on floating-point numbers, which this library does not compute:
//! the caller supplies it, as it supplies the conversion from radians to
//! degrees. Everything here holds for whatever test and conversion those are.

use vstd::prelude::*;
use crate::header::{DataPageHeader, F64Bits};
use crate::sample::System3000Sample;

verus! {

/// A position in degrees. Each coordinate is kept as the bit pattern of a
/// 64-bit IEEE-754 number.
#[derive(Clone, Copy, Debug, PartialEq, Eq, Structural)]
pub struct TrackPoint {
    pub lon: F64Bits,
    pub lat: F64Bits,
}

/// The track after `p` was offered to `track`: `p` is appended unless the
/// track has a last point and `p` is near it.
pub open spec fn offered(
    track: Seq<TrackPoint>,
    p: TrackPoint,
    near: spec_fn(TrackPoint, TrackPoint) -> bool,
) -> Seq<TrackPoint> {
    if track.len() > 0 && near(p, track.last()) {
        track
    } else {
        track.push(p)
    }
}

/// The track after the points `ps` were offered to `track` one by one, in
/// order.
pub open spec fn thinned_onto(
    track: Seq<TrackPoint>,
    ps: Seq<TrackPoint>,
    near: spec_fn(TrackPoint, TrackPoint) -> bool,
) -> Seq<TrackPoint>
    decreases ps.len(),
{
    if ps.len() == 0 {
        track
    } else {
        offered(thinned_onto(track, ps.drop_last(), near), ps.last(), near)
    }
}

/// The track of the points `ps`, started from nothing.
pub open spec fn thinned(
    ps: Seq<TrackPoint>,
    near: spec_fn(TrackPoint, TrackPoint) -> bool,
) -> Seq<TrackPoint> {
    thinned_onto(Seq::empty(), ps, near)
}

/// No point of `track` is near the point before it.
pub open spec fn well_spaced(
    track: Seq<TrackPoint>,
    near: spec_fn(TrackPoint, TrackPoint) -> bool,
) -> bool {
    forall|k: int| 0 < k < track.len() ==> !near(#[trigger] track[k], track[k - 1])
}

/// `a` is `b` with some of its points left out: the points of `a` occur in
/// `b`, in the same order.
pub open spec fn is_subsequence(a: Seq<TrackPoint>, b: Seq<TrackPoint>) -> bool
    decreases b.len(),
{
    if a.len() == 0 {
        true
    } else if b.len() == 0 {
        false
    } else {
        (a.last() == b.last() && is_subsequence(a.drop_last(), b.drop_last())) || is_subsequence(
            a,
            b.drop_last(),
        )
    }
}

/// Offering points in two runs gives the track of offering them in one.
pub proof fn lemma_thinned_in_runs(
    track: Seq<TrackPoint>,
    a: Seq<TrackPoint>,
    b: Seq<TrackPoint>,
    near: spec_fn(TrackPoint, TrackPoint) -> bool,
)
    ensures
        thinned_onto(thinned_onto(track, a, near), b, near) == thinned_onto(track, a + b, near),
    decreases b.len(),
{
    if b.len() == 0 {
        assert(a + b =~= a);
    } else {
        lemma_thinned_in_runs(track, a, b.drop_last(), near);
        assert((a + b).drop_last() =~= a + b.drop_last());
        assert((a + b).last() == b.last());
    }
}

/// The track is its points with some left out, in their order; it begins
/// with the first point; and no point of it is near the point before it.
pub proof fn lemma_thinned_law(ps: Seq<TrackPoint>, near: spec_fn(TrackPoint, TrackPoint) -> bool)
    ensures
        is_subsequence(thinned(ps, near), ps),
        ps.len() > 0 ==> thinned(ps, near).len() > 0 && thinned(ps, near)[0] == ps[0],
        well_spaced(thinned(ps, near), near),
    decreases ps.len(),
{
    if ps.len() > 0 {
        let before = thinned(ps.drop_last(), near);
        lemma_thinned_law(ps.drop_last(), near);
        let out = thinned(ps, near);
        if before.len() > 0 && near(ps.last(), before.last()) {
            assert(out == before);
        } else {
            assert(out == before.push(ps.last()));
            assert(out.drop_last() =~= before);
            assert(out.last() == ps.last());
            if ps.len() > 1 {
                assert(ps.drop_last()[0] == ps[0]);
            }
        }
    }
}

/// Offering points to a track in which no point is near the point before it
/// gives such a track again.
pub proof fn lemma_spacing_is_kept(
    track: Seq<TrackPoint>,
    ps: Seq<TrackPoint>,
    near: spec_fn(TrackPoint, TrackPoint) -> bool,
)
    requires
        well_spaced(track, near),
    ensures
        well_spaced(thinned_onto(track, ps, near), near),
    decreases ps.len(),
{
    if ps.len() > 0 {
        lemma_spacing_is_kept(track, ps.drop_last(), near);
    }
}

/// A track in which no point is near the point before it is left as it is
/// when its own points are offered again.
pub proof fn lemma_well_spaced_is_kept(
    track: Seq<TrackPoint>,
    near: spec_fn(TrackPoint, TrackPoint) -> bool,
)
    requires
        well_spaced(track, near),
    ensures
        thinned(track, near) == track,
    decreases track.len(),
{
    if track.len() > 0 {
        let front = track.drop_last();
        assert forall|k: int| 0 < k < front.len() implies !near(
            #[trigger] front[k],
            front[k - 1],
        ) by {
            assert(front[k] == track[k]);
            assert(front[k - 1] == track[k - 1]);
        }
        lemma_well_spaced_is_kept(front, near);
        if front.len() > 0 {
            assert(front.last() == track[track.len() - 2]);
            assert(!near(track[track.len() - 1], track[track.len() - 2]));
        }
        assert(front.push(track.last()) =~= track);
    }
}

/// Building the track of a track changes nothing: no further point leaves.
pub proof fn lemma_thinned_twice(
    ps: Seq<TrackPoint>,
    near: spec_fn(TrackPoint, TrackPoint) -> bool,
)
    ensures
        thinned(thinned(ps, near), near) == thinned(ps, near),
{
    lemma_thinned_law(ps, near);
    lemma_well_spaced_is_kept(thinned(ps, near), near);
}

/// The position that a header records for the ship, with each angle turned
/// from radians into degrees by `degrees`: longitude first, then latitude.
pub open spec fn position_of(
    h: DataPageHeader,
    degrees: spec_fn(F64Bits) -> F64Bits,
) -> TrackPoint {
    TrackPoint { lon: degrees(h.ship_lon), lat: degrees(h.ship_lat) }
}

/// The positions of the pings `samples`, in their order.
pub open spec fn positions(
    samples: Seq<System3000Sample>,
    degrees: spec_fn(F64Bits) -> F64Bits,
) -> Seq<TrackPoint> {
    Seq::new(samples.len(), |i: int| position_of(samples[i].header, degrees))
}

/// What the conversion `degrees` makes of a value: what it returns on it.
pub open spec fn says_degrees<C: Fn(F64Bits) -> F64Bits>(degrees: C) -> spec_fn(
    F64Bits,
) -> F64Bits {
    |x: F64Bits| choose|y: F64Bits| degrees.ensures((x,), y)
}

/// The conversion `degrees` can be called on every value and gives one answer
/// for each.
pub open spec fn is_conversion<C: Fn(F64Bits) -> F64Bits>(degrees: C) -> bool {
    &&& forall|x: F64Bits| #[trigger] degrees.requires((x,))
    &&& forall|x: F64Bits, y: F64Bits, z: F64Bits|
        #[trigger] degrees.ensures((x,), y) && #[trigger] degrees.ensures((x,), z) ==> y == z
}

/// What the test `near` says of a pair: that it returns `true` on it.
pub open spec fn says_near<F: Fn(TrackPoint, TrackPoint) -> bool>(near: F) -> spec_fn(
    TrackPoint,
    TrackPoint,
) -> bool {
    |a: TrackPoint, b: TrackPoint| near.ensures((a, b), true)
}

/// The test `near` can be called on every pair and gives one answer for each.
pub open spec fn is_test<F: Fn(TrackPoint, TrackPoint) -> bool>(near: F) -> bool {
    forall|a: TrackPoint, b: TrackPoint|
        #![trigger near.requires((a, b))]
        #![trigger near.ensures((a, b), true)]
        #![trigger near.ensures((a, b), false)]
        near.requires((a, b)) && !(near.ensures((a, b), true) && near.ensures((a, b), false))
}

/// Two points are near each other by the coordinate test `close`: their
/// longitudes are close and their latitudes are close. The first point of the
/// pair is the one that is offered, the second the last one kept.
pub open spec fn near_by(close: spec_fn(F64Bits, F64Bits) -> bool) -> spec_fn(
    TrackPoint,
    TrackPoint,
) -> bool {
    |p: TrackPoint, q: TrackPoint| close(p.lon, q.lon) && close(p.lat, q.lat)
}

/// What the coordinate test `close` says of a pair: that it returns `true` on
/// it.
pub open spec fn says_close<G: Fn(F64Bits, F64Bits) -> bool>(close: G) -> spec_fn(
    F64Bits,
    F64Bits,
) -> bool {
    |x: F64Bits, y: F64Bits| close.ensures((x, y), true)
}

/// The coordinate test `close` can be called on every pair and gives one
/// answer for each.
pub open spec fn is_close_test<G: Fn(F64Bits, F64Bits) -> bool>(close: G) -> bool {
    forall|x: F64Bits, y: F64Bits|
        #![trigger close.requires((x, y))]
        #![trigger close.ensures((x, y), true)]
        #![trigger close.ensures((x, y), false)]
        close.requires((x, y)) && !(close.ensures((x, y), true) && close.ensures((x, y), false))
}

/// In the track built with a coordinate test, each point differs from the
/// point before it in longitude or in latitude by more than the test allows.
pub proof fn lemma_thinned_by_coordinates(
    ps: Seq<TrackPoint>,
    close: spec_fn(F64Bits, F64Bits) -> bool,
)
    ensures
        is_subsequence(thinned(ps, near_by(close)), ps),
        ps.len() > 0 ==> thinned(ps, near_by(close)).len() > 0 && thinned(ps, near_by(close))[0]
            == ps[0],
        forall|k: int|
            0 < k < thinned(ps, near_by(close)).len() ==> {
                let p = #[trigger] thinned(ps, near_by(close))[k];
                let q = thinned(ps, near_by(close))[k - 1];
                !close(p.lon, q.lon) || !close(p.lat, q.lat)
            },
{
    lemma_thinned_law(ps, near_by(close));
}

/// The track as it grows from recording to recording.
#[derive(Clone, Debug, PartialEq, Eq)]
pub struct Track {
    pub points: Vec<TrackPoint>,
}

impl View for Track {
    type V = Seq<TrackPoint>;

    open spec fn view(&self) -> Seq<TrackPoint> {
        self.points@
    }
}

impl Track {
    /// The track with no point.
    pub fn new() -> (r: Track)
        ensures
            r@ == Seq::<TrackPoint>::empty(),
    {
        Track { points: Vec::new() }
    }

    /// The last point that was kept, if there is one: the point that the next
    /// one is held against.
    pub fn last(&self) -> (r: Option<TrackPoint>)
        ensures
            self@.len() == 0 ==> r == None::<TrackPoint>,
            self@.len() > 0 ==> r == Some(self@.last()),
    {
        let n: usize = self.points.len();
        if n == 0 {
            None
        } else {
            Some(self.points[n - 1])
        }
    }

    /// Offers `p` to the track, given whether `p` is near the last point kept.
    /// The point is appended where the track is empty, whatever `near_last`
    /// says, and where `near_last` is false; otherwise the track stays as it
    /// is.
    pub fn offer(&mut self, p: TrackPoint, near_last: bool)
        ensures
            final(self)@ == offered(old(self)@, p, |a: TrackPoint, b: TrackPoint| near_last),
    {
        if self.points.len() == 0 || !near_last {
            self.points.push(p);
        }
    }

    /// Offers the points `ps` to the track one by one, in order, asking `near`
    /// of each point and the last point kept before it.
    pub fn extend<F: Fn(TrackPoint, TrackPoint) -> bool>(&mut self, ps: &Vec<TrackPoint>, near: F)
        requires
            is_test(near),
        ensures
            final(self)@ == thinned_onto(old(self)@, ps@, says_near(near)),
    {
        let n: usize = ps.len();
        let mut i: usize = 0;
        assert(ps@.take(0) =~= Seq::<TrackPoint>::empty());
        while i < n
            invariant
                n == ps.len(),
                i <= n,
                is_test(near),
                self@ == thinned_onto(old(self)@, ps@.take(i as int), says_near(near)),
            decreases n - i,
        {
            let p: TrackPoint = ps[i];
            let near_last: bool = match self.last() {
                Some(q) => near(p, q),
                None => false,
            };
            proof {
                let upto = ps@.take(i + 1);
                assert(upto.drop_last() =~= ps@.take(i as int));
                assert(upto.last() == p);
                if self@.len() > 0 {
                    assert(near.requires((p, self@.last())));
                    assert(near_last == says_near(near)(p, self@.last()));
                }
            }
            self.offer(p, near_last);
            i += 1;
        }
        assert(ps@.take(n as int) =~= ps@);
    }

    /// Offers the points `ps` to the track one by one, in order. A point is
    /// near the last point kept when `close` holds of their longitudes and of
    /// their latitudes; it is dropped then, and kept otherwise.
    pub fn extend_by<G: Fn(F64Bits, F64Bits) -> bool>(&mut self, ps: &Vec<TrackPoint>, close: G)
        requires
            is_close_test(close),
        ensures
            final(self)@ == thinned_onto(old(self)@, ps@, near_by(says_close(close))),
    {
        let n: usize = ps.len();
        let mut i: usize = 0;
        assert(ps@.take(0) =~= Seq::<TrackPoint>::empty());
        while i < n
            invariant
                n == ps.len(),
                i <= n,
                is_close_test(close),
                self@ == thinned_onto(old(self)@, ps@.take(i as int), near_by(says_close(close))),
            decreases n - i,
        {
            let p: TrackPoint = ps[i];
            let near_last: bool = match self.last() {
                Some(q) => {
                    let lon_close: bool = close(p.lon, q.lon);
                    let lat_close: bool = close(p.lat, q.lat);
                    lon_close && lat_close
                },
                None => false,
            };
            proof {
                let upto = ps@.take(i + 1);
                assert(upto.drop_last() =~= ps@.take(i as int));
                assert(upto.last() == p);
                if self@.len() > 0 {
                    let q = self@.last();
                    assert(close.requires((p.lon, q.lon)));
                    assert(close.requires((p.lat, q.lat)));
                    assert(near_last == near_by(says_close(close))(p, q));
                }
            }
            self.offer(p, near_last);
            i += 1;
        }
        assert(ps@.take(n as int) =~= ps@);
    }

    /// Offers the ship positions of the pings `samples` to the track one by
    /// one, in order. The position of a ping is the ship longitude and the
    /// ship latitude of its header, each turned from radians into degrees by
    /// `degrees`. A position is near the last one kept when `close` holds of
    /// their longitudes and of their latitudes; it is dropped then, and kept
    /// otherwise.
    pub fn add_recording<C: Fn(F64Bits) -> F64Bits, G: Fn(F64Bits, F64Bits) -> bool>(
        &mut self,
        samples: &Vec<System3000Sample>,
        degrees: C,
        close: G,
    )
        requires
            is_conversion(degrees),
            is_close_test(close),
        ensures
            final(self)@ == thinned_onto(
                old(self)@,
                positions(samples@, says_degrees(degrees)),
                near_by(says_close(close)),
            ),
    {
        let points = ship_positions(samples, degrees);
        self.extend_by(&points, close);
    }
}

/// The ship positions of the pings `samples`, in their order: for each ping
/// the ship longitude and the ship latitude of its header, each turned from
/// radians into degrees by `degrees`.
pub fn ship_positions<C: Fn(F64Bits) -> F64Bits>(
    samples: &Vec<System3000Sample>,
    degrees: C,
) -> (r: Vec<TrackPoint>)
    requires
        is_conversion(degrees),
    ensures
        r@ == positions(samples@, says_degrees(degrees)),
{
    let n: usize = samples.len();
    let mut out: Vec<TrackPoint> = Vec::new();
    let mut i: usize = 0;
    while i < n
        invariant
            n == samples.len(),
            i <= n,
            is_conversion(degrees),
            out@ == positions(samples@.take(i as int), says_degrees(degrees)),
        decreases n - i,
    {
        let lon: F64Bits = degrees(samples[i].header.ship_lon);
        let lat: F64Bits = degrees(samples[i].header.ship_lat);
        out.push(TrackPoint { lon, lat });
        i += 1;
        assert(out@ =~= positions(samples@.take(i as int), says_degrees(degrees)));
    }
    assert(samples@.take(n as int) =~= samples@);
    out
}

} // verus!
