//! The replay engine: recorded strokes are drawn one after the other, and
//! only the last few stay inked. A ring of bounded capacity remembers them;
//! the stroke that a new one pushes out of the ring is erased. A record is
//! replayed whole with `replay`, or stroke by stroke with a `ReplayEngine`.

use vstd::prelude::*;
use ringbuffer::{AllocRingBuffer, RingBuffer};
use crate::drawing::{Color, Drawing};

verus! {

/// `ringbuffer::AllocRingBuffer`, a ring of bounded capacity. Of what is
/// inside nothing is known but what `ring_items` and `ring_capacity` name.
#[verifier::external_type_specification]
#[verifier::external_body]
#[verifier::reject_recursive_types(T)]
pub struct ExAllocRingBuffer<T>(AllocRingBuffer<T>);

/// The items that an `AllocRingBuffer` holds, oldest first.
pub uninterp spec fn ring_items(ring: AllocRingBuffer<usize>) -> Seq<usize>;

/// The capacity that an `AllocRingBuffer` was made with.
pub uninterp spec fn ring_capacity(ring: AllocRingBuffer<usize>) -> nat;

/// The largest ring that `AllocRingBuffer::new` makes without a panic. A ring
/// takes the next power of two of slots, of one machine word each, and no
/// allocation is larger than half the address space: on a machine of 64 bits
/// that leaves room for two to the power of 59 slots.
pub const MAX_CAPACITY: usize = usize::MAX / 32 + 1;

/// Calls `AllocRingBuffer::new`, which gives an empty ring of the capacity
/// asked for. It panics on a capacity of zero, and on one whose slots, rounded
/// up to the next power of two, no allocation can hold.
#[verifier::external_body]
fn ring_new(capacity: usize) -> (ring: AllocRingBuffer<usize>)
    requires
        0 < capacity <= MAX_CAPACITY,
    ensures
        ring_items(ring) == Seq::<usize>::empty(),
        ring_capacity(ring) == capacity,
{
    AllocRingBuffer::new(capacity)
}

/// Calls `RingBuffer::enqueue`, which appends the item. A ring that holds as
/// many items as its capacity first gives up its oldest item and returns it;
/// otherwise nothing is returned.
#[verifier::external_body]
fn ring_enqueue(ring: &mut AllocRingBuffer<usize>, item: usize) -> (evicted: Option<usize>)
    ensures
        ring_capacity(*final(ring)) == ring_capacity(*old(ring)),
        ring_items(*old(ring)).len() == ring_capacity(*old(ring)) ==> evicted == Some(
            ring_items(*old(ring))[0],
        ) && ring_items(*final(ring)) == ring_items(*old(ring)).skip(1).push(item),
        ring_items(*old(ring)).len() != ring_capacity(*old(ring)) ==> evicted.is_none()
            && ring_items(*final(ring)) == ring_items(*old(ring)).push(item),
{
    ring.enqueue(item)
}

/// Calls `RingBuffer::drain` and collects what it yields: every item, oldest
/// first. The ring is empty afterwards.
#[verifier::external_body]
fn ring_drain(ring: &mut AllocRingBuffer<usize>) -> (items: Vec<usize>)
    ensures
        items@ == ring_items(*old(ring)),
        ring_items(*final(ring)) == Seq::<usize>::empty(),
        ring_capacity(*final(ring)) == ring_capacity(*old(ring)),
{
    ring.drain().collect()
}

/// One pass over the canvas: a recorded stroke is drawn as it is, or drawn
/// again in the background colour. The number is the stroke's place in the
/// record.
#[derive(Clone, Copy, Debug, PartialEq, Eq, Structural)]
pub enum Pass {
    Draw(usize),
    Erase(usize),
}

/// The places of the strokes among the first `n` that leave ink: the black
/// ones.
pub open spec fn drawn(colors: Seq<Color>, n: nat) -> Seq<usize>
    decreases n,
{
    if n == 0 {
        Seq::empty()
    } else {
        let before = drawn(colors, (n - 1) as nat);
        if colors[n - 1] == Color::Black {
            before.push((n - 1) as usize)
        } else {
            before
        }
    }
}

/// The strokes that are still inked after the first `n`: the last `capacity`
/// of those that leave ink.
pub open spec fn inked(colors: Seq<Color>, capacity: nat, n: nat) -> Seq<usize> {
    let all = drawn(colors, n);
    if all.len() <= capacity {
        all
    } else {
        all.skip(all.len() - capacity)
    }
}

/// The passes that stroke `i` causes: it is drawn, and if it leaves ink while
/// as many strokes are inked as the ring holds, the oldest of them is erased.
pub open spec fn passes_for(colors: Seq<Color>, capacity: nat, i: nat) -> Seq<Pass> {
    let before = inked(colors, capacity, i);
    if colors[i as int] == Color::Black && before.len() == capacity {
        seq![Pass::Draw(i as usize), Pass::Erase(before[0])]
    } else {
        seq![Pass::Draw(i as usize)]
    }
}

/// The passes that the first `n` strokes cause.
pub open spec fn passes_until(colors: Seq<Color>, capacity: nat, n: nat) -> Seq<Pass>
    decreases n,
{
    if n == 0 {
        Seq::empty()
    } else {
        passes_until(colors, capacity, (n - 1) as nat) + passes_for(
            colors,
            capacity,
            (n - 1) as nat,
        )
    }
}

/// One erasing pass for each of the given strokes, in order.
pub open spec fn erase_all(strokes: Seq<usize>) -> Seq<Pass> {
    Seq::new(strokes.len(), |j: int| Pass::Erase(strokes[j]))
}

/// The whole replay of a record: the passes of every stroke, and at the end
/// one erasing pass for each stroke that is still inked.
pub open spec fn replay_spec(colors: Seq<Color>, capacity: nat) -> Seq<Pass> {
    passes_until(colors, capacity, colors.len()) + erase_all(
        inked(colors, capacity, colors.len()),
    )
}

/// The colours of a record of strokes.
pub open spec fn colors_of(strokes: Seq<Drawing>) -> Seq<Color> {
    Seq::new(strokes.len(), |i: int| strokes[i]@.color)
}

/// The strokes that are inked after one more stroke.
proof fn lemma_inked_step(colors: Seq<Color>, capacity: nat, i: nat)
    requires
        capacity > 0,
    ensures
        inked(colors, capacity, i).len() <= capacity,
        colors[i as int] != Color::Black ==> inked(colors, capacity, i + 1) == inked(
            colors,
            capacity,
            i,
        ),
        colors[i as int] == Color::Black && inked(colors, capacity, i).len() == capacity ==> inked(
            colors,
            capacity,
            i + 1,
        ) == inked(colors, capacity, i).skip(1).push(i as usize),
        colors[i as int] == Color::Black && inked(colors, capacity, i).len() != capacity ==> inked(
            colors,
            capacity,
            i + 1,
        ) == inked(colors, capacity, i).push(i as usize),
{
    let before = drawn(colors, i);
    assert(drawn(colors, i + 1) == if colors[i as int] == Color::Black {
        before.push(i as usize)
    } else {
        before
    });
    if colors[i as int] == Color::Black {
        if inked(colors, capacity, i).len() == capacity {
            assert(inked(colors, capacity, i + 1) =~= inked(colors, capacity, i).skip(1).push(
                i as usize,
            ));
        } else {
            assert(inked(colors, capacity, i + 1) =~= inked(colors, capacity, i).push(i as usize));
        }
    }
}

/// Never more strokes are inked than the ring holds, and the inked strokes
/// are the latest of those that leave ink.
pub proof fn lemma_inked_bounded(colors: Seq<Color>, capacity: nat, n: nat)
    ensures
        inked(colors, capacity, n).len() <= capacity,
        inked(colors, capacity, n).len() <= drawn(colors, n).len(),
        forall|k: int|
            0 <= k < inked(colors, capacity, n).len() ==> inked(colors, capacity, n)[k] == drawn(
                colors,
                n,
            )[drawn(colors, n).len() - inked(colors, capacity, n).len() + k],
{
}

/// Every stroke of a record is drawn once, and every stroke that leaves ink
/// is erased once: a replay of `n` strokes, `d` of them black, has `n + d`
/// passes.
pub proof fn lemma_replay_length(colors: Seq<Color>, capacity: nat)
    requires
        capacity > 0,
    ensures
        replay_spec(colors, capacity).len() == colors.len() + drawn(colors, colors.len()).len(),
{
    lemma_passes_length(colors, capacity, colors.len());
}

/// The passes of the first `n` strokes: one drawing pass each, and one
/// erasing pass for each black stroke that is no longer inked.
proof fn lemma_passes_length(colors: Seq<Color>, capacity: nat, n: nat)
    requires
        capacity > 0,
    ensures
        passes_until(colors, capacity, n).len() == n + drawn(colors, n).len() - inked(
            colors,
            capacity,
            n,
        ).len(),
    decreases n,
{
    if n > 0 {
        lemma_passes_length(colors, capacity, (n - 1) as nat);
        lemma_inked_step(colors, capacity, (n - 1) as nat);
    }
}

/// The capacity of the ring that a replay makes: the one asked for, but no
/// more slots than the record has strokes, and one slot at least.
pub open spec fn ring_size(capacity: nat, strokes: nat) -> nat {
    if capacity <= strokes {
        capacity
    } else if strokes == 0 {
        1
    } else {
        strokes
    }
}

/// One drawing pass for each of the first `n` strokes, in order.
pub open spec fn draw_all(n: nat) -> Seq<Pass> {
    Seq::new(n, |i: int| Pass::Draw(i as usize))
}

/// Among the first `n` strokes no more than `n` leave ink.
proof fn lemma_drawn_len(colors: Seq<Color>, n: nat)
    ensures
        drawn(colors, n).len() <= n,
    decreases n,
{
    if n > 0 {
        lemma_drawn_len(colors, (n - 1) as nat);
    }
}

/// A ring with room for the first `n` strokes erases nothing while they are
/// drawn.
proof fn lemma_roomy_passes(colors: Seq<Color>, capacity: nat, n: nat)
    requires
        capacity >= n,
        capacity > 0,
    ensures
        passes_until(colors, capacity, n) == draw_all(n),
        inked(colors, capacity, n) == drawn(colors, n),
    decreases n,
{
    lemma_drawn_len(colors, n);
    if n > 0 {
        lemma_roomy_passes(colors, capacity, (n - 1) as nat);
        lemma_drawn_len(colors, (n - 1) as nat);
        assert(passes_for(colors, capacity, (n - 1) as nat) == seq![Pass::Draw((n - 1) as usize)]);
        assert(passes_until(colors, capacity, n) =~= draw_all(n));
    } else {
        assert(passes_until(colors, capacity, n) =~= draw_all(n));
    }
}

/// A ring with room for the whole record replays it as every roomier ring
/// does: all strokes are drawn, then those that left ink are erased.
pub proof fn lemma_roomy_ring(colors: Seq<Color>, capacity: nat)
    requires
        capacity >= colors.len(),
        capacity > 0,
    ensures
        replay_spec(colors, capacity) == draw_all(colors.len()) + erase_all(
            drawn(colors, colors.len()),
        ),
        replay_spec(colors, capacity) == replay_spec(
            colors,
            ring_size(capacity, colors.len()),
        ),
{
    lemma_roomy_passes(colors, capacity, colors.len());
    lemma_roomy_passes(colors, ring_size(capacity, colors.len()), colors.len());
}

/// Replays a record of strokes with a ring of the given capacity.
///
/// Every stroke is drawn. A black stroke joins the ring; when the ring is
/// full, the oldest stroke in it leaves and is erased right after the new one
/// was drawn. At the end every stroke that is still in the ring is erased,
/// oldest first.
///
/// A capacity of zero is refused. The ring that is made has no more slots
/// than the record has strokes, which changes nothing of the replay; a record
/// with more strokes than the largest ring has slots, replayed with a
/// capacity above that, is refused too.
pub fn replay(strokes: &Vec<Drawing>, capacity: usize) -> (r: Option<Vec<Pass>>)
    ensures
        r.is_none() == (capacity == 0 || ring_size(capacity as nat, strokes@.len())
            > MAX_CAPACITY),
        r.is_some() ==> r.unwrap()@ == replay_spec(colors_of(strokes@), capacity as nat),
{
    if capacity == 0 {
        return None;
    }
    let size: usize = if capacity <= strokes.len() {
        capacity
    } else if strokes.len() == 0 {
        1
    } else {
        strokes.len()
    };
    if size > MAX_CAPACITY {
        return None;
    }
    let ghost colors = colors_of(strokes@);
    let mut ring = ring_new(size);
    let mut out: Vec<Pass> = Vec::new();
    let mut i: usize = 0;
    while i < strokes.len()
        invariant
            i <= strokes@.len(),
            size > 0,
            colors == colors_of(strokes@),
            ring_capacity(ring) == size,
            ring_items(ring) == inked(colors, size as nat, i as nat),
            out@ == passes_until(colors, size as nat, i as nat),
        decreases strokes@.len() - i,
    {
        proof {
            lemma_inked_step(colors, size as nat, i as nat);
        }
        let ghost before = out@;
        out.push(Pass::Draw(i));
        if strokes[i].color() == Color::Black {
            match ring_enqueue(&mut ring, i) {
                Some(oldest) => {
                    out.push(Pass::Erase(oldest));
                },
                None => {},
            }
        }
        assert(out@ =~= before + passes_for(colors, size as nat, i as nat));
        i = i + 1;
    }
    let rest = ring_drain(&mut ring);
    let ghost before = out@;
    let mut j: usize = 0;
    while j < rest.len()
        invariant
            j <= rest@.len(),
            out@.len() == before.len() + j,
            forall|k: int| 0 <= k < before.len() ==> out@[k] == before[k],
            forall|k: int| 0 <= k < j ==> out@[before.len() + k] == Pass::Erase(rest@[k]),
        decreases rest@.len() - j,
    {
        out.push(Pass::Erase(rest[j]));
        j = j + 1;
    }
    assert(out@ =~= before + erase_all(rest@));
    proof {
        if capacity > strokes@.len() {
            lemma_roomy_ring(colors, capacity as nat);
        }
    }
    Some(out)
}

/// Which strokes leave ink among the first `n` does not depend on what comes
/// after them.
proof fn lemma_drawn_prefix(colors: Seq<Color>, more: Seq<Color>, n: nat)
    requires
        n <= colors.len(),
        colors.len() <= more.len(),
        forall|i: int| 0 <= i < colors.len() ==> colors[i] == more[i],
    ensures
        drawn(colors, n) == drawn(more, n),
    decreases n,
{
    if n > 0 {
        lemma_drawn_prefix(colors, more, (n - 1) as nat);
    }
}

/// What an engine holds: the colours of the strokes that it was fed, in
/// order, and the capacity of its ring.
pub struct EngineView {
    pub colors: Seq<Color>,
    pub capacity: nat,
}

/// A replay that takes the strokes one by one, as they are read.
pub struct ReplayEngine {
    ring: AllocRingBuffer<usize>,
    fed: usize,
    colors: Ghost<Seq<Color>>,
}

impl ReplayEngine {
    pub closed spec fn view(&self) -> EngineView {
        EngineView { colors: self.colors@, capacity: ring_capacity(self.ring) }
    }

    /// The ring holds the strokes that are inked.
    pub closed spec fn wf(&self) -> bool {
        &&& ring_capacity(self.ring) > 0
        &&& self.fed == self.colors@.len()
        &&& ring_items(self.ring) == inked(
            self.colors@,
            ring_capacity(self.ring),
            self.colors@.len(),
        )
    }

    /// An engine with a ring of the given capacity, which was fed nothing
    /// yet. A capacity of zero, or one above `MAX_CAPACITY`, is refused.
    pub fn new(capacity: usize) -> (r: Option<ReplayEngine>)
        ensures
            r.is_none() == (capacity == 0 || capacity > MAX_CAPACITY),
            r.is_some() ==> r.unwrap().wf() && r.unwrap()@ == (EngineView {
                colors: Seq::empty(),
                capacity: capacity as nat,
            }),
    {
        if capacity == 0 || capacity > MAX_CAPACITY {
            None
        } else {
            Some(ReplayEngine { ring: ring_new(capacity), fed: 0, colors: Ghost(Seq::empty()) })
        }
    }

    /// The number of strokes that the engine was fed.
    pub fn fed(&self) -> (n: usize)
        requires
            self.wf(),
        ensures
            n == self@.colors.len(),
    {
        self.fed
    }

    /// Takes the next stroke of the record, by its colour, and gives the
    /// passes that it causes: the stroke is drawn, and if it pushes the
    /// oldest inked stroke out of the ring, that one is erased.
    pub fn feed(&mut self, color: Color) -> (passes: Vec<Pass>)
        requires
            old(self).wf(),
            old(self)@.colors.len() < usize::MAX,
        ensures
            final(self).wf(),
            final(self)@ == (EngineView {
                colors: old(self)@.colors.push(color),
                capacity: old(self)@.capacity,
            }),
            passes@ == passes_for(
                final(self)@.colors,
                old(self)@.capacity,
                old(self)@.colors.len(),
            ),
    {
        let i = self.fed;
        let ghost before = self.colors@;
        let ghost after = before.push(color);
        let ghost capacity = ring_capacity(self.ring);
        proof {
            lemma_drawn_prefix(before, after, i as nat);
            lemma_inked_step(after, capacity, i as nat);
        }
        let mut passes: Vec<Pass> = Vec::new();
        passes.push(Pass::Draw(i));
        if color == Color::Black {
            match ring_enqueue(&mut self.ring, i) {
                Some(oldest) => {
                    passes.push(Pass::Erase(oldest));
                },
                None => {},
            }
        }
        self.fed = i + 1;
        self.colors = Ghost(after);
        assert(passes@ =~= passes_for(after, capacity, i as nat));
        passes
    }

    /// Ends the record: every stroke that is still inked is erased, oldest
    /// first. What was fed followed by this is the whole replay.
    pub fn finish(self) -> (passes: Vec<Pass>)
        requires
            self.wf(),
        ensures
            passes@ == erase_all(inked(self@.colors, self@.capacity, self@.colors.len())),
    {
        let mut engine = self;
        let rest = ring_drain(&mut engine.ring);
        let mut out: Vec<Pass> = Vec::new();
        let mut j: usize = 0;
        while j < rest.len()
            invariant
                j <= rest@.len(),
                out@.len() == j,
                forall|k: int| 0 <= k < j ==> out@[k] == Pass::Erase(rest@[k]),
            decreases rest@.len() - j,
        {
            out.push(Pass::Erase(rest[j]));
            j = j + 1;
        }
        assert(out@ =~= erase_all(rest@));
        out
    }
}

/// The passes of a record, fed stroke by stroke, are those of the whole
/// replay: what the first `n` strokes cause does not change when more strokes
/// follow.
pub proof fn lemma_fed_passes(colors: Seq<Color>, more: Seq<Color>, capacity: nat, n: nat)
    requires
        n <= colors.len(),
        colors.len() <= more.len(),
        forall|i: int| 0 <= i < colors.len() ==> colors[i] == more[i],
    ensures
        passes_until(colors, capacity, n) == passes_until(more, capacity, n),
    decreases n,
{
    if n > 0 {
        lemma_fed_passes(colors, more, capacity, (n - 1) as nat);
        lemma_drawn_prefix(colors, more, (n - 1) as nat);
    }
}

impl Pass {
    /// The stroke to paint for a pass over the given record: the recorded
    /// stroke itself, or the same stroke in the background colour.
    pub fn stroke(&self, strokes: &Vec<Drawing>) -> (r: Option<Drawing>)
        ensures
            match *self {
                Pass::Draw(i) => if i < strokes@.len() {
                    r.is_some() && r.unwrap()@ == strokes@[i as int]@
                } else {
                    r.is_none()
                },
                Pass::Erase(i) => if i < strokes@.len() {
                    r.is_some() && r.unwrap()@ == strokes@[i as int]@.with_color(Color::White)
                } else {
                    r.is_none()
                },
            },
    {
        match *self {
            Pass::Draw(i) => {
                if i < strokes.len() {
                    Some(strokes[i].clone())
                } else {
                    None
                }
            },
            Pass::Erase(i) => {
                if i < strokes.len() {
                    Some(strokes[i].erased())
                } else {
                    None
                }
            },
        }
    }
}

} // verus!
