//! A sliding-window rate counter: how many frames ended within the last
//! second.
//!
//! The counter reads a monotonic clock and keeps, for each frame of the
//! window, the nanoseconds that had passed since the counter was made. What
//! the clock says is not known to the verifier, so every method that reads
//! it has a twin that takes the reading as an argument and says exactly what
//! it does with it.

use std::collections::VecDeque;
use std::time::Instant;
use vstd::prelude::*;

verus! {

/// `std::time::Instant`, a reading of the monotonic clock. The verifier
/// sees nothing inside it.
#[verifier::external_type_specification]
#[verifier::external_body]
pub struct ExInstant(std::time::Instant);

/// The length of the window, in nanoseconds.
pub const WINDOW_NANOS: u128 = 1_000_000_000;

/// How many whole milliseconds have to pass after one report of the rate
/// before the next is due: a report is due when more have passed.
pub const DISPLAY_PERIOD_MILLIS: u128 = 1000;

/// The nanoseconds of a millisecond.
pub const NANOS_PER_MILLI: u128 = 1_000_000;

/// `Instant::now`. Nothing is claimed of the result.
#[verifier::external_body]
fn clock_start() -> Instant {
    Instant::now()
}

/// `Instant::elapsed`, as whole nanoseconds: the time that has passed since
/// `origin`. Nothing is claimed of the result.
#[verifier::external_body]
fn clock_read(origin: &Instant) -> u128 {
    origin.elapsed().as_nanos()
}

/// Whether a frame that ended at `stamp` has left the window by `now`: it
/// ended more than `WINDOW_NANOS` before.
pub open spec fn stale(stamp: u128, now: u128) -> bool {
    stamp + WINDOW_NANOS < now
}

/// The stamps that stay at a tick at `now`: stale stamps are dropped from
/// the front, up to the first stamp that is not stale.
pub open spec fn live(frames: Seq<u128>, now: u128) -> Seq<u128>
    decreases frames.len(),
{
    if frames.len() > 0 && stale(frames[0], now) {
        live(frames.drop_first(), now)
    } else {
        frames
    }
}

/// The stamps after a tick at `now`.
pub open spec fn ticked(frames: Seq<u128>, now: u128) -> Seq<u128> {
    live(frames, now).push(now)
}

/// Whether a report of the rate is due at `now`, when the last one was made
/// at `last_display`. A clock that went back makes none due.
pub open spec fn display_due(last_display: u128, now: u128) -> bool {
    now >= last_display && (now - last_display) / (NANOS_PER_MILLI as int)
        > DISPLAY_PERIOD_MILLIS
}

/// Whether the stamps never decrease.
pub open spec fn ascending(frames: Seq<u128>) -> bool {
    forall|i: int, j: int| 0 <= i <= j < frames.len() ==> frames[i] <= frames[j]
}

/// On a clock that never goes back the counter counts the frames of the
/// trailing second. Of an ascending history, a tick at a time not before
/// its last stamp drops exactly the stale stamps, which stand at the front,
/// and keeps every other stamp in its place; what results is ascending
/// again and holds no stale stamp.
pub proof fn lemma_tick_keeps_the_trailing_second(frames: Seq<u128>, now: u128)
    requires
        ascending(frames),
        frames.len() > 0 ==> frames.last() <= now,
    ensures
        live(frames, now).len() <= frames.len(),
        ({
            let dropped = frames.len() - live(frames, now).len();
            &&& live(frames, now) == frames.subrange(dropped, frames.len() as int)
            &&& forall|i: int| 0 <= i < dropped ==> stale(#[trigger] frames[i], now)
            &&& forall|i: int| dropped <= i < frames.len() ==> !stale(#[trigger] frames[i], now)
        }),
        ascending(ticked(frames, now)),
        forall|i: int|
            0 <= i < ticked(frames, now).len() ==> !stale(#[trigger] ticked(frames, now)[i], now),
    decreases frames.len(),
{
    if frames.len() > 0 && stale(frames[0], now) {
        let rest = frames.drop_first();
        assert(ascending(rest)) by {
            assert forall|i: int, j: int| 0 <= i <= j < rest.len() implies rest[i] <= rest[j] by {
                assert(rest[i] == frames[i + 1] && rest[j] == frames[j + 1]);
            }
        }
        assert(rest.len() > 0 ==> rest.last() == frames.last());
        lemma_tick_keeps_the_trailing_second(rest, now);
        let dropped = rest.len() - live(rest, now).len();
        assert(live(frames, now) == live(rest, now));
        assert(rest.subrange(dropped, rest.len() as int) =~= frames.subrange(
            dropped + 1,
            frames.len() as int,
        ));
        assert forall|i: int| 0 <= i < dropped + 1 implies stale(#[trigger] frames[i], now) by {
            if i > 0 {
                assert(frames[i] == rest[i - 1]);
            }
        }
        assert forall|i: int| dropped + 1 <= i < frames.len() implies !stale(
            #[trigger] frames[i],
            now,
        ) by {
            assert(frames[i] == rest[i - 1]);
        }
    } else {
        assert(live(frames, now) == frames);
        assert(frames.subrange(0, frames.len() as int) =~= frames);
        assert forall|i: int| 0 <= i < frames.len() implies !stale(#[trigger] frames[i], now) by {
            assert(frames[0] <= frames[i]);
        }
    }
    let kept = live(frames, now);
    let dropped = frames.len() - kept.len();
    assert forall|i: int, j: int| 0 <= i <= j < ticked(frames, now).len() implies ticked(
        frames,
        now,
    )[i] <= ticked(frames, now)[j] by {
        if i < kept.len() {
            assert(kept[i] == frames[dropped + i]);
            assert(frames[dropped + i] <= frames.last());
        }
        if j < kept.len() {
            assert(kept[j] == frames[dropped + j]);
        }
    }
    assert forall|i: int| 0 <= i < ticked(frames, now).len() implies !stale(
        #[trigger] ticked(frames, now)[i],
        now,
    ) by {
        if i < kept.len() {
            assert(kept[i] == frames[dropped + i]);
        }
    }
}

/// Measures frames per second.
pub struct FPSCounter {
    origin: Instant,
    last_second_frames: VecDeque<u128>,
    last_display: u128,
}

/// The abstract value of a counter.
pub struct FPSCounterView {
    /// When each frame of the window ended, oldest first.
    pub frames: Seq<u128>,
    /// When the rate was last reported.
    pub last_display: u128,
}

impl View for FPSCounter {
    type V = FPSCounterView;

    closed spec fn view(&self) -> FPSCounterView {
        FPSCounterView { frames: self.last_second_frames@, last_display: self.last_display }
    }
}

impl FPSCounter {
    /// A counter without frames, whose clock starts now.
    pub fn new() -> (counter: FPSCounter)
        ensures
            counter@ == (FPSCounterView { frames: Seq::empty(), last_display: 0 }),
    {
        FPSCounter {
            origin: clock_start(),
            last_second_frames: VecDeque::with_capacity(128),
            last_display: 0,
        }
    }

    /// The time on the counter's clock.
    fn now(&self) -> u128 {
        clock_read(&self.origin)
    }

    /// Counts a frame that ends now and returns the number of frames in
    /// the window. Whatever the clock says, this is a tick at what it says.
    pub fn tick(&mut self) -> (n: usize)
        ensures
            exists|now: u128| final(self)@.frames == #[trigger] ticked(old(self)@.frames, now),
            final(self)@.last_display == old(self)@.last_display,
            n == final(self)@.frames.len(),
            n >= 1,
    {
        let now = self.now();
        self.tick_at(now)
    }

    /// Counts a frame that ends at `now` and returns the number of frames
    /// in the window.
    pub fn tick_at(&mut self, now: u128) -> (n: usize)
        ensures
            final(self)@.frames == ticked(old(self)@.frames, now),
            final(self)@.last_display == old(self)@.last_display,
            n == final(self)@.frames.len(),
            n >= 1,
    {
        while self.last_second_frames.len() > 0 && Self::is_stale(self.last_second_frames[0], now)
            invariant
                live(self.last_second_frames@, now) == live(old(self).last_second_frames@, now),
                self.last_display == old(self).last_display,
            decreases self.last_second_frames.len(),
        {
            let ghost before = self.last_second_frames@;
            self.last_second_frames.pop_front();
            assert(self.last_second_frames@ =~= before.drop_first());
        }
        self.last_second_frames.push_back(now);
        self.last_second_frames.len()
    }

    /// Decides `stale`.
    fn is_stale(stamp: u128, now: u128) -> (stale: bool)
        ensures
            stale == self::stale(stamp, now),
    {
        now >= WINDOW_NANOS && stamp < now - WINDOW_NANOS
    }

    /// Counts a frame that ends now. Returns the number of frames in the
    /// window where a report of it is due, and notes the report.
    pub fn tick_and_display(&mut self) -> (report: Option<usize>)
        ensures
            exists|now: u128| final(self)@.frames == #[trigger] ticked(old(self)@.frames, now),
            report matches Some(n) ==> n == final(self)@.frames.len(),
            report is None ==> final(self)@.last_display == old(self)@.last_display,
    {
        let n = self.tick();
        let now = self.now();
        self.display_at(n, now)
    }

    /// Decides at `now` whether the rate `n` is reported. Where a report is
    /// due the result is `n` and the time is noted; else nothing changes.
    pub fn display_at(&mut self, n: usize, now: u128) -> (report: Option<usize>)
        ensures
            final(self)@.frames == old(self)@.frames,
            display_due(old(self)@.last_display, now) ==> {
                &&& report == Some(n)
                &&& final(self)@.last_display == now
            },
            !display_due(old(self)@.last_display, now) ==> {
                &&& report is None
                &&& final(self)@ == old(self)@
            },
    {
        if now >= self.last_display && (now - self.last_display) / NANOS_PER_MILLI
            > DISPLAY_PERIOD_MILLIS {
            self.last_display = now;
            Some(n)
        } else {
            None
        }
    }
}

} // verus!
