//! Recorded terminal output: chunks of text stamped with the milliseconds
//! since the recording started.

use std::time::{Duration, Instant};
use vstd::prelude::*;

verus! {

#[verifier::external_type_specification]
#[verifier::external_body]
pub struct ExInstant(Instant);

/// Relies on `std::time::Instant::now`: the current instant. Nothing is
/// known of its value.
pub assume_specification[ Instant::now ]() -> Instant;

/// Relies on `std::time::Instant::elapsed`: the time since the instant.
/// Nothing is known of its value.
pub assume_specification[ Instant::elapsed ](instant: &Instant) -> Duration;

/// Relies on `std::time::Duration::as_millis`: whole milliseconds of the
/// duration. Nothing is known of its value here.
pub assume_specification[ Duration::as_millis ](duration: &Duration) -> u128;

/// Relies on `Clone` for `std::time::Instant`, a `Copy` type: the clone is
/// the same instant.
pub assume_specification[ <Instant as Clone>::clone ](instant: &Instant) -> (r: Instant)
    ensures
        r == *instant,
;

/// A chunk of output and when it came, in milliseconds since the start.
#[derive(Clone, Debug)]
pub struct RecordedFrame {
    pub content: String,
    pub timestamp: u128,
}

/// A frame as plain values: its text and its timestamp.
pub open spec fn frame_view(f: RecordedFrame) -> (Seq<char>, u128) {
    (f.content@, f.timestamp)
}

/// The frames of a list as plain values.
pub open spec fn frames_view(frames: Seq<RecordedFrame>) -> Seq<(Seq<char>, u128)> {
    frames.map_values(|f: RecordedFrame| frame_view(f))
}

/// Timestamps never go backwards along the list.
pub open spec fn timestamps_ordered(frames: Seq<RecordedFrame>) -> bool {
    forall|i: int, j: int|
        0 <= i <= j < frames.len() ==> #[trigger] frames[i].timestamp <= #[trigger] frames[j].timestamp
}

/// A recording in progress: the frames so far and when it started.
#[derive(Clone)]
pub struct Recording {
    pub frames: Vec<RecordedFrame>,
    pub start_time: Instant,
}

impl Recording {
    /// An empty recording that starts now.
    pub fn new() -> (r: Recording)
        ensures
            r.frames@.len() == 0,
    {
        Recording { frames: Vec::new(), start_time: Instant::now() }
    }

    /// Appends `content` stamped with `timestamp`; empty content is not
    /// kept.
    pub fn add_frame_at(&mut self, content: String, timestamp: u128)
        ensures
            final(self).start_time == old(self).start_time,
            content@.len() == 0 ==> final(self).frames@ == old(self).frames@,
            content@.len() > 0 ==> frames_view(final(self).frames@) == frames_view(
                old(self).frames@,
            ).push((content@, timestamp)),
    {
        if !content.as_str().is_empty() {
            let ghost before = self.frames@;
            let ghost c = content@;
            self.frames.push(RecordedFrame { content, timestamp });
            assert(frames_view(self.frames@) =~= frames_view(before).push((c, timestamp)));
        }
    }

    /// Appends `content` stamped with the milliseconds since the recording
    /// started, or with the last frame's timestamp where the clock reads
    /// less, so that timestamps never go backwards; empty content is not
    /// kept.
    pub fn add_frame(&mut self, content: String)
        ensures
            final(self).start_time == old(self).start_time,
            content@.len() == 0 ==> final(self).frames@ == old(self).frames@,
            content@.len() > 0 ==> exists|t: u128|
                frames_view(final(self).frames@) == frames_view(old(self).frames@).push(
                    (content@, t),
                ) && (old(self).frames@.len() > 0 ==> t >= old(self).frames@.last().timestamp),
            timestamps_ordered(old(self).frames@) ==> timestamps_ordered(final(self).frames@),
    {
        let mut timestamp = self.start_time.elapsed().as_millis();
        let n = self.frames.len();
        if n > 0 && self.frames[n - 1].timestamp > timestamp {
            timestamp = self.frames[n - 1].timestamp;
        }
        let ghost before = self.frames@;
        let ghost c = content@;
        self.add_frame_at(content, timestamp);
        proof {
            if c.len() > 0 {
                assert(frames_view(self.frames@).len() == self.frames@.len());
                assert(frames_view(before).len() == before.len());
                assert(self.frames@.len() == before.len() + 1);
                assert forall|i: int| 0 <= i < before.len() implies #[trigger] self.frames@[i].timestamp
                    == before[i].timestamp by {
                    assert(frames_view(self.frames@)[i] == frames_view(before)[i]);
                }
                assert(frames_view(self.frames@)[before.len() as int] == (c, timestamp));
            }
        }
    }
}

} // verus!
