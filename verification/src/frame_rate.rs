//! Reporting of the frame rate.

use fps_counter::FPSCounter;
use vstd::prelude::*;

verus! {

/// `fps_counter::FPSCounter`, a queue of the instants of the frames of the
/// last second.  Nothing inside it is visible to the proofs.
#[verifier::external_type_specification]
#[verifier::external_body]
pub struct ExFPSCounter(FPSCounter);

/// The instants of the frames that an `fps_counter::FPSCounter` holds,
/// oldest first, each as a number of nanoseconds on the scale of the clock.
pub uninterp spec fn frame_times(counter: FPSCounter) -> Seq<int>;

/// `old_frames` and `new_frames` are what a counter holds before and after
/// it counts one frame: some of the oldest frames are forgotten, and the
/// frame that is counted comes last.
pub open spec fn counted(old_frames: Seq<int>, new_frames: Seq<int>) -> bool {
    &&& new_frames.len() >= 1
    &&& exists|forgotten: int|
        0 <= forgotten <= old_frames.len() && #[trigger] old_frames.skip(forgotten)
            == new_frames.drop_last()
}

/// `fps_counter::FPSCounter::new` makes a counter with an empty queue: it
/// holds no frame.
pub assume_specification[ FPSCounter::new ]() -> (counter: FPSCounter)
    ensures
        frame_times(counter) == Seq::<int>::empty(),
;

/// `fps_counter::FPSCounter::tick` reads the clock, takes the frames that
/// are older than a second from the front of its queue, puts the instant
/// of this call at its back and returns the length of the queue.  Which
/// frames are forgotten depends on the clock; what is claimed holds of
/// every outcome: the result is the number of frames then held, and those
/// are some of the newest frames held before, followed by the new one.
pub assume_specification[ FPSCounter::tick ](counter: &mut FPSCounter) -> (frames: usize)
    ensures
        frames == frame_times(*final(counter)).len(),
        counted(frame_times(*old(counter)), frame_times(*final(counter))),
;

/// What to report after a frame for which the counter gave `frames`: that
/// number, if at least `log_fps_frequency` has passed since the last
/// report, and nothing otherwise.
pub fn fps_report(frames: usize, since_last_log: u64, log_fps_frequency: u64) -> (report: Option<
    usize,
>)
    ensures
        report == if since_last_log >= log_fps_frequency {
            Some(frames)
        } else {
            None
        },
{
    if since_last_log >= log_fps_frequency {
        Some(frames)
    } else {
        None
    }
}

/// Counts frames and says when their rate is to be reported.
pub struct FrameRate {
    counter: FPSCounter,
    log_fps_frequency: u64,
}

impl FrameRate {
    /// Least time between two reports, in nanoseconds.
    pub closed spec fn frequency(&self) -> u64 {
        self.log_fps_frequency
    }

    /// The instants of the frames that are counted at present, oldest
    /// first.
    pub closed spec fn frames(&self) -> Seq<int> {
        frame_times(self.counter)
    }

    /// A frame rate that has seen no frame and reports at most every
    /// `log_fps_frequency` nanoseconds.
    pub fn new(log_fps_frequency: u64) -> (rate: FrameRate)
        ensures
            rate.frequency() == log_fps_frequency,
            rate.frames() == Seq::<int>::empty(),
    {
        FrameRate { counter: FPSCounter::new(), log_fps_frequency }
    }

    /// Counts a frame that has just been executed, reported or not, and
    /// returns the number of frames then counted if a report is due,
    /// `since_last_log` nanoseconds after the last one.
    pub fn frame_executed(&mut self, since_last_log: u64) -> (report: Option<usize>)
        ensures
            final(self).frequency() == old(self).frequency(),
            counted(old(self).frames(), final(self).frames()),
            report == if since_last_log >= old(self).frequency() {
                Some(final(self).frames().len() as usize)
            } else {
                None
            },
            report matches Some(frames) ==> frames == final(self).frames().len() && frames >= 1,
    {
        let frames = self.counter.tick();
        fps_report(frames, since_last_log, self.log_fps_frequency)
    }
}

} // verus!
