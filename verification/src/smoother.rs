//! The curve smoother: a sliding window of three pointer samples that turns
//! into one tapered segment per new sample.

use vstd::prelude::*;
use crate::rect::DirtyRect;

verus! {

/// Widths are numerators over this denominator: a width of `4096` is one
/// pixel.
pub const WIDTH_DENOMINATOR: i64 = 4096;

/// One reading of the pointer: where it is and how hard it presses.
#[derive(Clone, Copy, Debug)]
pub struct Sample {
    pub x: i32,
    pub y: i32,
    pub pressure: i32,
    pub tilt: Option<(u16, u16)>,
}

/// One end or the control point of a segment.
///
/// `x2` and `y2` are twice the coordinates, so that the midpoint of two
/// samples is exact. `width` is the stroke's width there, as a numerator over
/// `WIDTH_DENOMINATOR`.
#[derive(Clone, Copy, Debug, PartialEq, Eq, Structural)]
pub struct Anchor {
    pub x2: i64,
    pub y2: i64,
    pub width: i128,
}

/// One tapered curve, made from three consecutive samples, and the rectangle
/// that those samples span.
#[derive(Clone, Copy, Debug, PartialEq, Eq, Structural)]
pub struct Segment {
    pub start: Anchor,
    pub control: Anchor,
    pub end: Anchor,
    pub footprint: DirtyRect,
}

/// The half-width that a sample paints, as a numerator over
/// `WIDTH_DENOMINATOR`: the brush multiplier times the pressure.
pub open spec fn radius_spec(multiplier: u32, pressure: i32) -> int {
    multiplier * pressure
}

pub open spec fn min3(a: int, b: int, c: int) -> int {
    if a <= b && a <= c {
        a
    } else if b <= c {
        b
    } else {
        c
    }
}

pub open spec fn max3(a: int, b: int, c: int) -> int {
    if a >= b && a >= c {
        a
    } else if b >= c {
        b
    } else {
        c
    }
}

/// The smallest rectangle that holds the positions of three samples.
pub open spec fn footprint_spec(a: Sample, b: Sample, c: Sample) -> DirtyRect {
    let left = min3(a.x as int, b.x as int, c.x as int);
    let top = min3(a.y as int, b.y as int, c.y as int);
    let right = max3(a.x as int, b.x as int, c.x as int);
    let bottom = max3(a.y as int, b.y as int, c.y as int);
    DirtyRect::Area {
        left: left as i32,
        top: top as i32,
        width: (right - left) as u32,
        height: (bottom - top) as u32,
    }
}

/// The segment of a window of three samples, each with the brush multiplier
/// that applies to it.
///
/// The curve starts halfway between the newest sample and the middle one,
/// bends at the middle one and ends halfway between the middle one and the
/// oldest. Its width at each of the three is the sum of the half-widths of the
/// samples that meet there.
pub open spec fn segment_spec(
    oldest: Sample,
    m_oldest: u32,
    middle: Sample,
    m_middle: u32,
    newest: Sample,
    m_newest: u32,
) -> Segment {
    let r_oldest = radius_spec(m_oldest, oldest.pressure);
    let r_middle = radius_spec(m_middle, middle.pressure);
    let r_newest = radius_spec(m_newest, newest.pressure);
    Segment {
        start: Anchor {
            x2: (newest.x + middle.x) as i64,
            y2: (newest.y + middle.y) as i64,
            width: (r_newest + r_middle) as i128,
        },
        control: Anchor {
            x2: (2 * middle.x) as i64,
            y2: (2 * middle.y) as i64,
            width: (2 * r_middle) as i128,
        },
        end: Anchor {
            x2: (middle.x + oldest.x) as i64,
            y2: (middle.y + oldest.y) as i64,
            width: (r_middle + r_oldest) as i128,
        },
        footprint: footprint_spec(oldest, middle, newest),
    }
}

/// The half-width numerator of one sample.
pub fn radius(multiplier: u32, pressure: i32) -> (r: i64)
    ensures
        r == radius_spec(multiplier, pressure),
        -0x8000_0000_0000_0000 < r < 0x8000_0000_0000_0000,
{
    assert(-0x7fff_ffff_8000_0000 <= multiplier * pressure <= 0x7fff_fffe_8000_0001) by (nonlinear_arith)
        requires
            0 <= multiplier <= 0xffff_ffff,
            -0x8000_0000 <= pressure <= 0x7fff_ffff,
    ;
    multiplier as i64 * pressure as i64
}

fn least(a: i32, b: i32, c: i32) -> (r: i32)
    ensures
        r == min3(a as int, b as int, c as int),
{
    if a <= b && a <= c {
        a
    } else if b <= c {
        b
    } else {
        c
    }
}

fn greatest(a: i32, b: i32, c: i32) -> (r: i32)
    ensures
        r == max3(a as int, b as int, c as int),
{
    if a >= b && a >= c {
        a
    } else if b >= c {
        b
    } else {
        c
    }
}

/// The smallest rectangle that holds the positions of three samples.
pub fn footprint(a: &Sample, b: &Sample, c: &Sample) -> (r: DirtyRect)
    ensures
        r == footprint_spec(*a, *b, *c),
        r.wf(),
        r.has_point(a.x as int, a.y as int),
        r.has_point(b.x as int, b.y as int),
        r.has_point(c.x as int, c.y as int),
{
    let left: i32 = least(a.x, b.x, c.x);
    let top: i32 = least(a.y, b.y, c.y);
    let right: i32 = greatest(a.x, b.x, c.x);
    let bottom: i32 = greatest(a.y, b.y, c.y);
    let width: i64 = right as i64 - left as i64;
    let height: i64 = bottom as i64 - top as i64;
    DirtyRect::Area { left, top, width: width as u32, height: height as u32 }
}

/// Builds the segment of a window of three samples.
pub fn make_segment(
    oldest: &Sample,
    m_oldest: u32,
    middle: &Sample,
    m_middle: u32,
    newest: &Sample,
    m_newest: u32,
) -> (r: Segment)
    ensures
        r == segment_spec(*oldest, m_oldest, *middle, m_middle, *newest, m_newest),
{
    let r_oldest: i128 = radius(m_oldest, oldest.pressure) as i128;
    let r_middle: i128 = radius(m_middle, middle.pressure) as i128;
    let r_newest: i128 = radius(m_newest, newest.pressure) as i128;
    Segment {
        start: Anchor {
            x2: newest.x as i64 + middle.x as i64,
            y2: newest.y as i64 + middle.y as i64,
            width: r_newest + r_middle,
        },
        control: Anchor {
            x2: 2 * (middle.x as i64),
            y2: 2 * (middle.y as i64),
            width: 2 * r_middle,
        },
        end: Anchor {
            x2: middle.x as i64 + oldest.x as i64,
            y2: middle.y as i64 + oldest.y as i64,
            width: r_middle + r_oldest,
        },
        footprint: footprint(oldest, middle, newest),
    }
}

/// The window that follows `window` once `sample` has been pushed: the last
/// two samples at most.
pub open spec fn window_after(window: Seq<Sample>, sample: Sample) -> Seq<Sample> {
    if window.len() >= 2 {
        seq![window[window.len() - 1], sample]
    } else {
        window.push(sample)
    }
}

/// What pushing `sample` onto `window` emits: a segment once two samples were
/// waiting, nothing before.
pub open spec fn emitted(window: Seq<Sample>, sample: Sample, multiplier: u32) -> Option<Segment> {
    if window.len() >= 2 {
        Some(
            segment_spec(
                window[window.len() - 2],
                multiplier,
                window[window.len() - 1],
                multiplier,
                sample,
                multiplier,
            ),
        )
    } else {
        None
    }
}

/// The window that is left after `samples` were pushed one by one onto an
/// empty smoother.
pub open spec fn window_of(samples: Seq<Sample>) -> Seq<Sample>
    decreases samples.len(),
{
    if samples.len() == 0 {
        Seq::empty()
    } else {
        window_after(window_of(samples.drop_last()), samples.last())
    }
}

/// Everything that an empty smoother emits while `samples` are pushed one by
/// one, in order.
pub open spec fn emitted_by(samples: Seq<Sample>, multiplier: u32) -> Seq<Segment>
    decreases samples.len(),
{
    if samples.len() == 0 {
        Seq::empty()
    } else {
        let before = emitted_by(samples.drop_last(), multiplier);
        match emitted(window_of(samples.drop_last()), samples.last(), multiplier) {
            Some(segment) => before.push(segment),
            None => before,
        }
    }
}

/// The segments of a whole stroke drawn with one brush: one for each window of
/// three consecutive samples.
pub open spec fn segments_of(samples: Seq<Sample>, multiplier: u32) -> Seq<Segment> {
    Seq::new(
        if samples.len() >= 3 { (samples.len() - 2) as nat } else { 0 },
        |i: int|
            segment_spec(
                samples[i],
                multiplier,
                samples[i + 1],
                multiplier,
                samples[i + 2],
                multiplier,
            ),
    )
}

/// A smoother that was fed `n` samples from empty has emitted one segment per
/// window of three: `n - 2` of them once `n` is at least 3, none before. It
/// holds the last two samples, or all of them while there are fewer.
pub proof fn lemma_emitted_by(samples: Seq<Sample>, multiplier: u32)
    ensures
        emitted_by(samples, multiplier) == segments_of(samples, multiplier),
        samples.len() >= 3 ==> emitted_by(samples, multiplier).len() == samples.len() - 2,
        samples.len() < 3 ==> emitted_by(samples, multiplier).len() == 0,
        samples.len() <= 2 ==> window_of(samples) == samples,
        samples.len() >= 2 ==> window_of(samples) == seq![
            samples[samples.len() - 2],
            samples[samples.len() - 1],
        ],
    decreases samples.len(),
{
    if samples.len() > 0 {
        let init = samples.drop_last();
        lemma_emitted_by(init, multiplier);
        assert(window_of(samples) == window_after(window_of(init), samples.last()));
        if samples.len() <= 2 {
            assert(window_of(samples) =~= samples);
        }
        if samples.len() >= 2 {
            assert(window_of(samples) =~= seq![
                samples[samples.len() - 2],
                samples[samples.len() - 1],
            ]);
        }
        assert(emitted_by(samples, multiplier) =~= segments_of(samples, multiplier));
    } else {
        assert(emitted_by(samples, multiplier) =~= segments_of(samples, multiplier));
    }
}

/// The sliding window of the last samples of the stroke in progress.
pub struct Smoother {
    window: Vec<Sample>,
}

impl Smoother {
    /// The buffered samples, oldest first.
    pub closed spec fn view(&self) -> Seq<Sample> {
        self.window@
    }

    /// Between calls at most two samples wait for a third.
    pub open spec fn wf(&self) -> bool {
        self@.len() <= 2
    }

    /// A smoother with no sample buffered.
    pub fn new() -> (s: Smoother)
        ensures
            s@ == Seq::<Sample>::empty(),
            s.wf(),
    {
        Smoother { window: Vec::new() }
    }

    /// The number of samples that wait in the window.
    pub fn len(&self) -> (n: usize)
        ensures
            n == self@.len(),
    {
        self.window.len()
    }

    /// Ends the stroke in progress: the samples that wait are dropped, and no
    /// segment is made of them.
    pub fn clear(&mut self)
        ensures
            final(self)@ == Seq::<Sample>::empty(),
            final(self).wf(),
    {
        self.window.clear();
    }

    /// Takes one sample. With two samples waiting, the oldest leaves and the
    /// segment of the three is returned; with fewer, the sample only joins
    /// the window.
    pub fn push(&mut self, sample: Sample, multiplier: u32) -> (r: Option<Segment>)
        requires
            old(self).wf(),
        ensures
            final(self).wf(),
            final(self)@ == window_after(old(self)@, sample),
            r == emitted(old(self)@, sample, multiplier),
    {
        if self.window.len() >= 2 {
            let oldest: Sample = self.window[0];
            let middle: Sample = self.window[1];
            let segment = make_segment(&oldest, multiplier, &middle, multiplier, &sample, multiplier);
            self.window.remove(0);
            self.window.push(sample);
            assert(self.window@ =~= window_after(old(self)@, sample));
            Some(segment)
        } else {
            self.window.push(sample);
            None
        }
    }
}

/// Smooths a whole stroke drawn with one brush: feeds the samples to an empty
/// smoother and collects what it emits.
pub fn smooth_all(samples: &Vec<Sample>, multiplier: u32) -> (r: Vec<Segment>)
    ensures
        r@ == segments_of(samples@, multiplier),
        r@ == emitted_by(samples@, multiplier),
        samples@.len() >= 3 ==> r@.len() == samples@.len() - 2,
        samples@.len() < 3 ==> r@.len() == 0,
{
    let mut smoother = Smoother::new();
    let mut out: Vec<Segment> = Vec::new();
    let mut i: usize = 0;
    while i < samples.len()
        invariant
            i <= samples@.len(),
            smoother.wf(),
            smoother@ == window_of(samples@.take(i as int)),
            out@ == emitted_by(samples@.take(i as int), multiplier),
        decreases samples@.len() - i,
    {
        let ghost before = samples@.take(i as int);
        let ghost after = samples@.take(i + 1);
        assert(after.drop_last() =~= before);
        assert(after.last() == samples@[i as int]);
        match smoother.push(samples[i], multiplier) {
            Some(segment) => {
                out.push(segment);
            },
            None => {},
        }
        i = i + 1;
    }
    assert(samples@.take(i as int) =~= samples@);
    proof {
        lemma_emitted_by(samples@, multiplier);
    }
    out
}

} // verus!
