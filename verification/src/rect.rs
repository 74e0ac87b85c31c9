//! The dirty region tracker: the smallest rectangle that covers everything
//! painted since the last repaint.

use vstd::prelude::*;

verus! {

/// Canvas units per pixel of the screen. Every position in this library
/// counts in canvas units, so that the pen can stand between two pixels.
pub const UNITS_PER_PIXEL: i32 = 64;

/// A rectangle of the canvas that has to be repainted, or `Invalid` when
/// nothing has to be.
///
/// An `Area` covers the closed range of columns `left ..= left + width` and the
/// closed range of rows `top ..= top + height`, so an area of width and height
/// zero still covers one point.
#[derive(Clone, Copy, Debug, PartialEq, Eq, Structural)]
pub enum DirtyRect {
    Invalid,
    Area { left: i32, top: i32, width: u32, height: u32 },
}

impl DirtyRect {
    /// The far edges of an area stay inside the coordinate range.
    pub open spec fn wf(self) -> bool {
        match self {
            DirtyRect::Invalid => true,
            DirtyRect::Area { left, top, width, height } => {
                &&& left + width <= i32::MAX
                &&& top + height <= i32::MAX
            },
        }
    }

    /// Whether the point `(x, y)` lies in the rectangle.
    pub open spec fn has_point(self, x: int, y: int) -> bool {
        match self {
            DirtyRect::Invalid => false,
            DirtyRect::Area { left, top, width, height } => {
                &&& left <= x <= left + width
                &&& top <= y <= top + height
            },
        }
    }

    /// Whether every point of `other` lies in `self`.
    pub open spec fn covers(self, other: DirtyRect) -> bool {
        forall|x: int, y: int| other.has_point(x, y) ==> #[trigger] self.has_point(x, y)
    }

    /// The smallest rectangle that covers both operands, as a value.
    pub open spec fn merge_spec(self, other: DirtyRect) -> DirtyRect {
        match (self, other) {
            (DirtyRect::Invalid, _) => other,
            (_, DirtyRect::Invalid) => self,
            (
                DirtyRect::Area { left: l1, top: t1, width: w1, height: h1 },
                DirtyRect::Area { left: l2, top: t2, width: w2, height: h2 },
            ) => {
                let left = if l1 <= l2 { l1 } else { l2 };
                let top = if t1 <= t2 { t1 } else { t2 };
                let right = if l1 + w1 >= l2 + w2 { l1 + w1 } else { l2 + w2 };
                let bottom = if t1 + h1 >= t2 + h2 { t1 + h1 } else { t2 + h2 };
                DirtyRect::Area {
                    left,
                    top,
                    width: (right - left) as u32,
                    height: (bottom - top) as u32,
                }
            },
        }
    }

    /// The smallest rectangle with the corners `(x0, y0)` and `(x1, y1)`, as a
    /// value.
    pub open spec fn spanning_spec(x0: i32, y0: i32, x1: i32, y1: i32) -> DirtyRect {
        let left = if x0 <= x1 { x0 } else { x1 };
        let top = if y0 <= y1 { y0 } else { y1 };
        let right = if x0 <= x1 { x1 } else { x0 };
        let bottom = if y0 <= y1 { y1 } else { y0 };
        DirtyRect::Area {
            left,
            top,
            width: (right - left) as u32,
            height: (bottom - top) as u32,
        }
    }

    /// The empty accumulator.
    pub fn invalid() -> (r: DirtyRect)
        ensures
            r == DirtyRect::Invalid,
    {
        DirtyRect::Invalid
    }

    /// Whether the rectangle covers anything.
    pub fn is_valid(&self) -> (r: bool)
        ensures
            r == (*self != DirtyRect::Invalid),
    {
        match self {
            DirtyRect::Invalid => false,
            DirtyRect::Area { .. } => true,
        }
    }

    /// The smallest rectangle that has the two given points as corners.
    pub fn spanning(x0: i32, y0: i32, x1: i32, y1: i32) -> (r: DirtyRect)
        ensures
            r == Self::spanning_spec(x0, y0, x1, y1),
            r.wf(),
            r.has_point(x0 as int, y0 as int),
            r.has_point(x1 as int, y1 as int),
    {
        let left: i32 = if x0 <= x1 { x0 } else { x1 };
        let top: i32 = if y0 <= y1 { y0 } else { y1 };
        let right: i32 = if x0 <= x1 { x1 } else { x0 };
        let bottom: i32 = if y0 <= y1 { y1 } else { y0 };
        let width: i64 = right as i64 - left as i64;
        let height: i64 = bottom as i64 - top as i64;
        DirtyRect::Area { left, top, width: width as u32, height: height as u32 }
    }

    /// Whether the point `(x, y)` lies in the rectangle.
    pub fn contains_point(&self, x: i32, y: i32) -> (r: bool)
        requires
            self.wf(),
        ensures
            r == self.has_point(x as int, y as int),
    {
        match self {
            DirtyRect::Invalid => false,
            DirtyRect::Area { left, top, width, height } => {
                let right: i64 = *left as i64 + *width as i64;
                let bottom: i64 = *top as i64 + *height as i64;
                *left <= x && x as i64 <= right && *top <= y && y as i64 <= bottom
            },
        }
    }

    /// Merges two rectangles into the smallest one that covers both. `Invalid`
    /// is the identity.
    pub fn merge(&self, other: &DirtyRect) -> (r: DirtyRect)
        requires
            self.wf(),
            other.wf(),
        ensures
            r == self.merge_spec(*other),
            r.wf(),
    {
        match (self, other) {
            (DirtyRect::Invalid, _) => *other,
            (_, DirtyRect::Invalid) => *self,
            (
                DirtyRect::Area { left: l1, top: t1, width: w1, height: h1 },
                DirtyRect::Area { left: l2, top: t2, width: w2, height: h2 },
            ) => {
                let left: i32 = if *l1 <= *l2 { *l1 } else { *l2 };
                let top: i32 = if *t1 <= *t2 { *t1 } else { *t2 };
                let r1: i64 = *l1 as i64 + *w1 as i64;
                let r2: i64 = *l2 as i64 + *w2 as i64;
                let b1: i64 = *t1 as i64 + *h1 as i64;
                let b2: i64 = *t2 as i64 + *h2 as i64;
                let right: i64 = if r1 >= r2 { r1 } else { r2 };
                let bottom: i64 = if b1 >= b2 { b1 } else { b2 };
                let width: i64 = right - left as i64;
                let height: i64 = bottom - top as i64;
                DirtyRect::Area { left, top, width: width as u32, height: height as u32 }
            },
        }
    }
}

/// Merging keeps the far edges inside the coordinate range.
pub proof fn lemma_merge_wf(a: DirtyRect, b: DirtyRect)
    requires
        a.wf(),
        b.wf(),
    ensures
        a.merge_spec(b).wf(),
{
}

/// `Invalid` is the identity of `merge`, on either side.
pub proof fn lemma_merge_identity(r: DirtyRect)
    ensures
        DirtyRect::Invalid.merge_spec(r) == r,
        r.merge_spec(DirtyRect::Invalid) == r,
{
}

/// `merge` does not depend on the order of its operands.
pub proof fn lemma_merge_commutative(a: DirtyRect, b: DirtyRect)
    requires
        a.wf(),
        b.wf(),
    ensures
        a.merge_spec(b) == b.merge_spec(a),
{
}

/// Merging three rectangles gives the same result however they are grouped.
pub proof fn lemma_merge_associative(a: DirtyRect, b: DirtyRect, c: DirtyRect)
    requires
        a.wf(),
        b.wf(),
        c.wf(),
    ensures
        a.merge_spec(b).merge_spec(c) == a.merge_spec(b.merge_spec(c)),
{
}

/// The merged rectangle covers both operands.
pub proof fn lemma_merge_covers(a: DirtyRect, b: DirtyRect)
    requires
        a.wf(),
        b.wf(),
    ensures
        a.merge_spec(b).covers(a),
        a.merge_spec(b).covers(b),
{
}

/// The merged rectangle is the smallest one: every rectangle that covers both
/// operands covers their merge.
pub proof fn lemma_merge_minimal(a: DirtyRect, b: DirtyRect, outer: DirtyRect)
    requires
        a.wf(),
        b.wf(),
        outer.wf(),
        outer.covers(a),
        outer.covers(b),
    ensures
        outer.covers(a.merge_spec(b)),
{
    match (a, b) {
        (
            DirtyRect::Area { left: l1, top: t1, width: w1, height: h1 },
            DirtyRect::Area { left: l2, top: t2, width: w2, height: h2 },
        ) => {
            // The corners of both operands lie in `outer`, which bounds it.
            assert(a.has_point(l1 as int, t1 as int));
            assert(a.has_point(l1 + w1, t1 + h1));
            assert(b.has_point(l2 as int, t2 as int));
            assert(b.has_point(l2 + w2, t2 + h2));
            assert(outer.has_point(l1 as int, t1 as int));
            assert(outer.has_point(l1 + w1, t1 + h1));
            assert(outer.has_point(l2 as int, t2 as int));
            assert(outer.has_point(l2 + w2, t2 + h2));
        },
        _ => {},
    }
}

/// The smallest rectangle that covers all of the given ones: they are merged
/// one by one into the empty accumulator.
pub open spec fn merged(rects: Seq<DirtyRect>) -> DirtyRect
    decreases rects.len(),
{
    if rects.len() == 0 {
        DirtyRect::Invalid
    } else {
        merged(rects.drop_last()).merge_spec(rects.last())
    }
}

/// Whether each of the rectangles keeps its far edges in range.
pub open spec fn all_wf(rects: Seq<DirtyRect>) -> bool {
    forall|i: int| 0 <= i < rects.len() ==> (#[trigger] rects[i]).wf()
}

/// The accumulated rectangle covers every rectangle that went into it, and
/// every rectangle that covers them all covers it.
pub proof fn lemma_merged_is_least_cover(rects: Seq<DirtyRect>, outer: DirtyRect)
    requires
        all_wf(rects),
        outer.wf(),
    ensures
        merged(rects).wf(),
        forall|i: int| 0 <= i < rects.len() ==> merged(rects).covers(#[trigger] rects[i]),
        (forall|i: int| 0 <= i < rects.len() ==> outer.covers(#[trigger] rects[i]))
            ==> outer.covers(merged(rects)),
    decreases rects.len(),
{
    if rects.len() > 0 {
        let init = rects.drop_last();
        let last = rects.last();
        assert(all_wf(init)) by {
            assert forall|i: int| 0 <= i < init.len() implies (#[trigger] init[i]).wf() by {
                assert(init[i] == rects[i]);
            }
        }
        lemma_merged_is_least_cover(init, outer);
        lemma_merge_covers(merged(init), last);
        assert forall|i: int| 0 <= i < rects.len() implies merged(rects).covers(
            #[trigger] rects[i],
        ) by {
            if i < init.len() {
                assert(init[i] == rects[i]);
                assert(merged(init).covers(init[i]));
            }
        }
        if forall|i: int| 0 <= i < rects.len() ==> outer.covers(#[trigger] rects[i]) {
            assert forall|i: int| 0 <= i < init.len() implies outer.covers(
                #[trigger] init[i],
            ) by {
                assert(init[i] == rects[i]);
            }
            assert(outer.covers(last));
            lemma_merge_minimal(merged(init), last, outer);
        }
    }
}

/// Rectangles accumulated in two batches merge into what they merge into in
/// one: the grouping does not matter.
pub proof fn lemma_merged_concat(a: Seq<DirtyRect>, b: Seq<DirtyRect>)
    requires
        all_wf(a),
        all_wf(b),
    ensures
        merged(a + b) == merged(a).merge_spec(merged(b)),
        merged(a + b).wf(),
    decreases b.len(),
{
    lemma_merged_is_least_cover(a, DirtyRect::Invalid);
    lemma_merged_is_least_cover(b, DirtyRect::Invalid);
    if b.len() == 0 {
        assert(a + b =~= a);
    } else {
        let init = b.drop_last();
        assert(all_wf(init)) by {
            assert forall|i: int| 0 <= i < init.len() implies (#[trigger] init[i]).wf() by {
                assert(init[i] == b[i]);
            }
        }
        lemma_merged_concat(a, init);
        lemma_merged_is_least_cover(init, DirtyRect::Invalid);
        assert((a + b).drop_last() =~= a + init);
        assert((a + b).last() == b.last());
        lemma_merge_associative(merged(a), merged(init), b.last());
    }
}

/// Two batches accumulated in the other order merge into the same region:
/// the order does not matter.
pub proof fn lemma_merged_order(a: Seq<DirtyRect>, b: Seq<DirtyRect>)
    requires
        all_wf(a),
        all_wf(b),
    ensures
        merged(a + b) == merged(b + a),
{
    lemma_merged_concat(a, b);
    lemma_merged_concat(b, a);
    lemma_merged_is_least_cover(a, DirtyRect::Invalid);
    lemma_merged_is_least_cover(b, DirtyRect::Invalid);
    lemma_merge_commutative(merged(a), merged(b));
}

/// Merges a row of rectangles, one by one, into the empty rectangle.
pub fn merge_all(rects: &Vec<DirtyRect>) -> (r: DirtyRect)
    requires
        all_wf(rects@),
    ensures
        r == merged(rects@),
        r.wf(),
{
    let mut region = DirtyRect::Invalid;
    let mut i: usize = 0;
    while i < rects.len()
        invariant
            i <= rects@.len(),
            all_wf(rects@),
            region == merged(rects@.take(i as int)),
            region.wf(),
        decreases rects@.len() - i,
    {
        assert(rects@.take(i + 1).drop_last() =~= rects@.take(i as int));
        region = region.merge(&rects[i]);
        i = i + 1;
    }
    assert(rects@.take(i as int) =~= rects@);
    region
}

/// What a tracker holds: the rectangles that were added since the last
/// repaint, in order, and the region that they merged into.
pub struct TrackerView {
    pub added: Seq<DirtyRect>,
    pub region: DirtyRect,
}

/// The region that was painted since the last repaint.
pub struct DirtyTracker {
    region: DirtyRect,
    added: Ghost<Seq<DirtyRect>>,
}

impl DirtyTracker {
    pub closed spec fn view(&self) -> TrackerView {
        TrackerView { added: self.added@, region: self.region }
    }

    /// The region is the merge of what was added.
    pub open spec fn wf(&self) -> bool {
        &&& all_wf(self@.added)
        &&& self@.region == merged(self@.added)
        &&& self@.region.wf()
    }

    /// A tracker with nothing to repaint.
    pub fn new() -> (t: DirtyTracker)
        ensures
            t.wf(),
            t@ == (TrackerView { added: Seq::empty(), region: DirtyRect::Invalid }),
    {
        DirtyTracker { region: DirtyRect::Invalid, added: Ghost(Seq::empty()) }
    }

    /// Adds the footprint of something that was painted.
    pub fn add(&mut self, rect: &DirtyRect)
        requires
            old(self).wf(),
            rect.wf(),
        ensures
            final(self).wf(),
            final(self)@.added == old(self)@.added.push(*rect),
            final(self)@.region == old(self)@.region.merge_spec(*rect),
    {
        let ghost before = self.added@;
        self.region = self.region.merge(rect);
        self.added = Ghost(before.push(*rect));
        proof {
            assert(before.push(*rect).drop_last() =~= before);
        }
    }

    /// The region to repaint: the smallest rectangle that covers everything
    /// that was added.
    pub fn region(&self) -> (r: DirtyRect)
        requires
            self.wf(),
        ensures
            r == self@.region,
            r == merged(self@.added),
            r.wf(),
    {
        self.region
    }

    /// Hands over the region to repaint and starts again from nothing.
    pub fn take(&mut self) -> (r: DirtyRect)
        requires
            old(self).wf(),
        ensures
            r == merged(old(self)@.added),
            r.wf(),
            final(self).wf(),
            final(self)@ == (TrackerView { added: Seq::empty(), region: DirtyRect::Invalid }),
    {
        let r = self.region;
        self.region = DirtyRect::Invalid;
        self.added = Ghost(Seq::empty());
        r
    }
}

} // verus!
