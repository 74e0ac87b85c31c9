//! What the sketch pad remembers of its canvas: the last saved state and the
//! one before, so that the last stroke can be taken back.

use vstd::prelude::*;

verus! {

/// The saved states of the canvas, as pixels.
pub struct HistoryView {
    /// The state after the last stroke.
    pub current: Option<Seq<u8>>,
    /// The state before the last stroke.
    pub previous: Option<Seq<u8>>,
}

/// The history after a state was saved: the state that was current becomes
/// the one before, if there was one.
pub open spec fn saved(h: HistoryView, pixels: Seq<u8>) -> HistoryView {
    HistoryView {
        current: Some(pixels),
        previous: if h.current is Some { h.current } else { h.previous },
    }
}

/// The pixels with every bit flipped.
pub open spec fn inverted(pixels: Seq<u8>) -> Seq<u8> {
    Seq::new(pixels.len(), |i: int| !pixels[i])
}

pub struct CanvasHistory {
    current: Option<Vec<u8>>,
    previous: Option<Vec<u8>>,
}

impl CanvasHistory {
    pub closed spec fn view(&self) -> HistoryView {
        HistoryView {
            current: match self.current {
                Some(pixels) => Some(pixels@),
                None => None,
            },
            previous: match self.previous {
                Some(pixels) => Some(pixels@),
                None => None,
            },
        }
    }

    /// A history without a saved state.
    pub fn new() -> (h: CanvasHistory)
        ensures
            h@ == (HistoryView { current: None, previous: None }),
    {
        CanvasHistory { current: None, previous: None }
    }

    /// Saves the canvas as it is after a stroke.
    pub fn save_canvas(&mut self, pixels: Vec<u8>)
        ensures
            final(self)@ == saved(old(self)@, pixels@),
    {
        if self.current.is_some() {
            self.previous = self.current.take();
        }
        self.current = Some(pixels);
    }

    /// The state to restore in order to take the last stroke back, if there
    /// is one.
    pub fn on_undo(&self) -> (r: Option<&Vec<u8>>)
        ensures
            match self@.previous {
                Some(pixels) => r.is_some() && r.unwrap()@ == pixels,
                None => r.is_none(),
            },
    {
        self.previous.as_ref()
    }

    /// Records that the state before the last stroke is on the canvas again,
    /// and saves that canvas: it is the current state, and there is no state
    /// before it to go back to.
    pub fn undone(&mut self, pixels: Vec<u8>)
        ensures
            final(self)@ == (HistoryView { current: Some(pixels@), previous: None }),
    {
        self.previous = None;
        self.current = None;
        self.save_canvas(pixels);
    }
}

/// Flips every bit of the pixels, so that black becomes white and white
/// black.
pub fn invert_canvas(pixels: &mut Vec<u8>)
    ensures
        final(pixels)@ == inverted(old(pixels)@),
{
    let n = pixels.len();
    let mut i: usize = 0;
    while i < n
        invariant
            n == pixels@.len(),
            n == old(pixels)@.len(),
            i <= n,
            forall|k: int| 0 <= k < i ==> pixels@[k] == !old(pixels)@[k],
            forall|k: int| i <= k < n ==> pixels@[k] == old(pixels)@[k],
        decreases n - i,
    {
        let p = pixels[i];
        pixels.set(i, !p);
        i = i + 1;
    }
    assert(pixels@ =~= inverted(old(pixels)@));
}

/// Inverting twice gives the pixels back.
pub proof fn lemma_invert_twice(pixels: Seq<u8>)
    ensures
        inverted(inverted(pixels)) == pixels,
{
    assert forall|i: int| 0 <= i < pixels.len() implies !(!pixels[i]) == pixels[i] by {
        let p = pixels[i];
        assert(!(!p) == p) by (bit_vector);
    }
    assert(inverted(inverted(pixels)) =~= pixels);
}

} // verus!
