//! The player's bookkeeping around the audio engine: when the end of a
//! file should advance the queue, and the volume range.
use vstd::prelude::*;

verus! {

/// Flags that decide what an end-of-file event from the audio engine means.
#[derive(Debug, Clone, Copy, PartialEq, Eq, Structural)]
pub struct PlaybackFlags {
    /// The current track ended: the next one should be played.
    pub pending_next: bool,
    /// The next end-of-file belongs to the file that a new track replaced.
    pub suppress_next_end_file: bool,
}

/// The flags after the audio engine reports the end of a file.
pub open spec fn after_end_of_file(f: PlaybackFlags) -> PlaybackFlags {
    if f.suppress_next_end_file {
        PlaybackFlags { suppress_next_end_file: false, ..f }
    } else {
        PlaybackFlags { pending_next: true, ..f }
    }
}

/// The flags after a new track is loaded.
pub open spec fn after_track_started(f: PlaybackFlags) -> PlaybackFlags {
    PlaybackFlags { suppress_next_end_file: true, pending_next: false }
}

impl PlaybackFlags {
    pub fn new() -> (f: Self)
        ensures
            !f.pending_next,
            !f.suppress_next_end_file,
    {
        PlaybackFlags { pending_next: false, suppress_next_end_file: false }
    }

    /// A new track was loaded: the file it replaced will report its end,
    /// and an advance asked for before is void.
    pub fn track_started(&mut self)
        ensures
            *final(self) == after_track_started(*old(self)),
    {
        self.suppress_next_end_file = true;
        self.pending_next = false;
    }

    /// Takes the suppression: returns whether it was set, and clears it.
    pub fn take_suppress_next_end_file(&mut self) -> (was: bool)
        ensures
            was == old(self).suppress_next_end_file,
            !final(self).suppress_next_end_file,
            final(self).pending_next == old(self).pending_next,
    {
        let was = self.suppress_next_end_file;
        self.suppress_next_end_file = false;
        was
    }

    /// The audio engine reported the end of a file.
    pub fn end_of_file(&mut self)
        ensures
            *final(self) == after_end_of_file(*old(self)),
    {
        if self.take_suppress_next_end_file() {
            return;
        }
        self.pending_next = true;
    }

    pub fn pending_next(&self) -> (r: bool)
        ensures
            r == self.pending_next,
    {
        self.pending_next
    }

    pub fn clear_pending_next(&mut self)
        ensures
            *final(self) == (PlaybackFlags { pending_next: false, ..*old(self) }),
    {
        self.pending_next = false;
    }
}

/// After a new track starts, the end of the file it replaced does not
/// advance the queue; the end of the new track does.
pub proof fn law_replaced_file_end_ignored(f: PlaybackFlags)
    ensures
        !after_end_of_file(after_track_started(f)).pending_next,
        after_end_of_file(after_end_of_file(after_track_started(f))).pending_next,
{
}

/// Volume is set in percent and never above 100.
pub fn clamp_volume(vol: u8) -> (r: u8)
    ensures
        r == if vol > 100 { 100 } else { vol },
{
    if vol > 100 { 100 } else { vol }
}

/// The volume after a step of `delta`, kept within 0..=100.
pub fn adjusted_volume(current: u8, delta: i8) -> (r: u8)
    ensures
        r as int == if current + delta < 0 {
            0
        } else if current + delta > 100 {
            100
        } else {
            current + delta
        },
{
    let sum = current as i16 + delta as i16;
    if sum < 0 {
        0
    } else if sum > 100 {
        100
    } else {
        sum as u8
    }
}

} // verus!
