//! The screen-share loop: on every tick, whether a snapshot of the canvas is
//! uploaded.

use vstd::prelude::*;

verus! {

/// The CRC-32 checksum that `crc_any` computes of a sequence of bytes.
pub uninterp spec fn crc32_of(data: Seq<u8>) -> u64;

/// Calls `crc_any::CRC::crc32`, feeds the bytes to `digest` and reads the
/// sum with `get_crc`. The sum depends on the bytes alone, and being a sum of
/// 32 bits it fits in a `u32`.
#[verifier::external_body]
fn crc32(data: &[u8]) -> (sum: u64)
    ensures
        sum == crc32_of(data@),
        sum <= u32::MAX,
{
    let mut crc = crc_any::CRC::crc32();
    crc.digest(data);
    crc.get_crc()
}

/// What the loop has to do on a tick.
#[derive(Clone, Copy, Debug, PartialEq, Eq, Structural)]
pub enum TickPlan {
    /// Nothing changed and no refresh is due: leave the canvas alone.
    Skip,
    /// Read the canvas and decide on its checksum. `forced` says that the
    /// periodic refresh is due.
    Inspect { forced: bool },
}

/// What the loop remembers between ticks.
pub struct ShareView {
    /// The number of ticks after which a refresh is forced.
    pub period: nat,
    /// The ticks since the last forced refresh.
    pub counter: nat,
    /// The checksum of the last snapshot that was uploaded.
    pub last_uploaded: Option<u64>,
    /// Whether the canvas may differ from what was last uploaded.
    pub needs_sharing: bool,
}

/// Whether the tick that follows `counter` ticks forces a refresh.
pub open spec fn fires(v: ShareView) -> bool {
    v.counter + 1 >= v.period
}

/// The counter after one more tick: it wraps to zero when it fires.
pub open spec fn ticked(v: ShareView) -> ShareView {
    ShareView { counter: if fires(v) { 0 } else { v.counter + 1 }, ..v }
}

/// What the tick asks for: an inspection when a refresh is forced or the
/// canvas may have changed.
pub open spec fn plan_of(v: ShareView) -> TickPlan {
    if fires(v) || v.needs_sharing {
        TickPlan::Inspect { forced: fires(v) }
    } else {
        TickPlan::Skip
    }
}

/// Whether a snapshot with the given checksum is uploaded: when the refresh
/// is forced, or when the checksum is not that of the last upload.
pub open spec fn should_upload(v: ShareView, forced: bool, checksum: u64) -> bool {
    forced || v.last_uploaded != Some(checksum)
}

/// Whether the tick that comes next uploads a snapshot with the given
/// checksum: it has to ask for an inspection, and the inspection for the
/// upload.
pub open spec fn uploads(v: ShareView, checksum: u64) -> bool {
    plan_of(v) is Inspect && should_upload(v, fires(v), checksum)
}

/// The loop after `ticks` ticks on which nothing was uploaded.
pub open spec fn after_ticks(v: ShareView, ticks: nat) -> ShareView
    decreases ticks,
{
    if ticks == 0 {
        v
    } else {
        ticked(after_ticks(v, (ticks - 1) as nat))
    }
}

/// The state of the screen-share loop.
pub struct ShareLoop {
    period: u32,
    counter: u32,
    last_uploaded: Option<u64>,
    needs_sharing: bool,
}

impl ShareLoop {
    pub closed spec fn view(&self) -> ShareView {
        ShareView {
            period: self.period as nat,
            counter: self.counter as nat,
            last_uploaded: self.last_uploaded,
            needs_sharing: self.needs_sharing,
        }
    }

    /// The counter stays below the period.
    pub open spec fn wf(&self) -> bool {
        &&& self@.period >= 1
        &&& self@.counter < self@.period
        &&& self@.period <= u32::MAX
    }

    /// A loop that forces a refresh every `period` ticks. Nothing has been
    /// uploaded yet, so the canvas needs sharing. A period of zero ticks is
    /// refused.
    pub fn new(period: u32) -> (r: Option<ShareLoop>)
        ensures
            period == 0 ==> r.is_none(),
            period > 0 ==> r.is_some() && r.unwrap().wf() && r.unwrap()@ == (ShareView {
                period: period as nat,
                counter: 0,
                last_uploaded: None,
                needs_sharing: true,
            }),
    {
        if period == 0 {
            None
        } else {
            Some(ShareLoop { period, counter: 0, last_uploaded: None, needs_sharing: true })
        }
    }

    /// Whether the canvas may differ from what was last uploaded.
    pub fn needs_sharing(&self) -> (r: bool)
        ensures
            r == self@.needs_sharing,
    {
        self.needs_sharing
    }

    /// The checksum of the last snapshot that was uploaded.
    pub fn last_uploaded(&self) -> (r: Option<u64>)
        ensures
            r == self@.last_uploaded,
    {
        self.last_uploaded
    }

    /// Records that something was painted or sent: the canvas needs sharing.
    pub fn mark(&mut self)
        ensures
            final(self)@ == (ShareView { needs_sharing: true, ..old(self)@ }),
    {
        self.needs_sharing = true;
    }

    /// Advances the counter by one tick and says what the tick asks for.
    pub fn tick(&mut self) -> (plan: TickPlan)
        requires
            old(self).wf(),
        ensures
            final(self).wf(),
            final(self)@ == ticked(old(self)@),
            plan == plan_of(old(self)@),
    {
        let forced = self.counter >= self.period - 1;
        if forced {
            self.counter = 0;
        } else {
            self.counter = self.counter + 1;
        }
        if forced || self.needs_sharing {
            TickPlan::Inspect { forced }
        } else {
            TickPlan::Skip
        }
    }

    /// Decides on the checksum of the canvas as it is now. The snapshot is
    /// uploaded when the refresh is forced or the checksum differs from that
    /// of the last upload. Otherwise the canvas is as it was shared, and
    /// needs no sharing.
    pub fn decide(&mut self, forced: bool, checksum: u64) -> (upload: bool)
        ensures
            upload == should_upload(old(self)@, forced, checksum),
            upload ==> final(self)@ == old(self)@,
            !upload ==> final(self)@ == (ShareView { needs_sharing: false, ..old(self)@ }),
    {
        let same = match self.last_uploaded {
            Some(last) => last == checksum,
            None => false,
        };
        if forced || !same {
            true
        } else {
            self.needs_sharing = false;
            false
        }
    }

    /// Decides on the pixels of the canvas as they are now: returns their
    /// checksum when the snapshot is to be uploaded.
    pub fn inspect(&mut self, forced: bool, pixels: &[u8]) -> (r: Option<u64>)
        ensures
            r == (if should_upload(old(self)@, forced, crc32_of(pixels@)) {
                Some(crc32_of(pixels@))
            } else {
                None
            }),
            r.is_some() ==> final(self)@ == old(self)@,
            r.is_none() ==> final(self)@ == (ShareView { needs_sharing: false, ..old(self)@ }),
    {
        let checksum = crc32(pixels);
        if self.decide(forced, checksum) {
            Some(checksum)
        } else {
            None
        }
    }

    /// Records how the upload of the snapshot with the given checksum went.
    /// After a success the canvas is shared and the checksum remembered.
    /// After a failure the canvas needs sharing and no checksum counts as
    /// uploaded, so that the next tick tries again.
    pub fn uploaded(&mut self, checksum: u64, ok: bool)
        ensures
            ok ==> final(self)@ == (ShareView {
                needs_sharing: false,
                last_uploaded: Some(checksum),
                ..old(self)@
            }),
            !ok ==> final(self)@ == (ShareView {
                needs_sharing: true,
                last_uploaded: None,
                ..old(self)@
            }),
    {
        if ok {
            self.needs_sharing = false;
            self.last_uploaded = Some(checksum);
        } else {
            self.needs_sharing = true;
            self.last_uploaded = None;
        }
    }
}

/// Counting from zero, none of the ticks before the `period`-th forces a
/// refresh, and the `period`-th does.
pub proof fn lemma_refresh_every_period(v: ShareView, ticks: nat)
    requires
        v.period >= 1,
        v.counter == 0,
        ticks < v.period,
    ensures
        after_ticks(v, ticks).counter == ticks,
        after_ticks(v, ticks).period == v.period,
        after_ticks(v, ticks).last_uploaded == v.last_uploaded,
        after_ticks(v, ticks).needs_sharing == v.needs_sharing,
        fires(after_ticks(v, ticks)) == (ticks + 1 == v.period),
    decreases ticks,
{
    if ticks > 0 {
        lemma_refresh_every_period(v, (ticks - 1) as nat);
    }
}

/// While the checksum stays that of the last upload, and nothing else marks
/// the canvas, a tick uploads exactly when its refresh is forced; a forced
/// refresh uploads whatever the checksum.
pub proof fn lemma_upload_when_forced(v: ShareView, forced: bool, checksum: u64, other: u64)
    requires
        v.last_uploaded == Some(checksum),
    ensures
        should_upload(v, forced, checksum) == forced,
        should_upload(v, true, other),
{
}

/// A canvas that stays as it was uploaded is uploaded again on every
/// `period`-th tick and on no other, whether it is marked or not.
pub proof fn lemma_unchanged_canvas(v: ShareView, checksum: u64, ticks: nat)
    requires
        v.period >= 1,
        v.counter == 0,
        v.last_uploaded == Some(checksum),
        ticks < v.period,
    ensures
        uploads(after_ticks(v, ticks), checksum) == (ticks + 1 == v.period),
        uploads(
            ShareView { needs_sharing: !v.needs_sharing, ..after_ticks(v, ticks) },
            checksum,
        ) == (ticks + 1 == v.period),
{
    lemma_refresh_every_period(v, ticks);
}

} // verus!
