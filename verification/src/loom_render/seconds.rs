//! Numbers of seconds, held as the bits of a double-precision number. The
//! bits of numbers that are not negative are ordered as the numbers are.
use vstd::prelude::*;

verus! {

/// The bits of 1.
pub const ONE_SECOND: u64 = 0x3FF0_0000_0000_0000;

/// The bits of 10.
pub const TEN_SECONDS: u64 = 0x4024_0000_0000_0000;

/// The bits of 120.
pub const MAX_DURATION: u64 = 0x405E_0000_0000_0000;

/// The bits of positive infinity. A greater magnitude is no number.
pub const INFINITE: u64 = 0x7FF0_0000_0000_0000;

/// The sign bit.
pub const SIGN: u64 = 0x8000_0000_0000_0000;

/// A number of seconds, as the bits of a double-precision number.
#[derive(Debug, Clone, Copy, PartialEq, Eq, Structural)]
pub struct Seconds {
    pub bits: u64,
}

impl Seconds {
    /// Whether the number is from 1 to 120.
    pub open spec fn in_range(self) -> bool {
        ONE_SECOND <= self.bits <= MAX_DURATION
    }

    /// Whether the bits stand for no number.
    pub open spec fn not_a_number(self) -> bool {
        self.bits % SIGN > INFINITE
    }

    /// The number from 1 to 120 that is nearest; what is no number stays as
    /// it is.
    pub open spec fn clamped(self) -> Seconds {
        if self.not_a_number() {
            self
        } else if self.bits >= SIGN || self.bits < ONE_SECOND {
            Seconds { bits: ONE_SECOND }
        } else if self.bits > MAX_DURATION {
            Seconds { bits: MAX_DURATION }
        } else {
            self
        }
    }

    /// Whether the number is from 1 to 120.
    pub fn is_in_range(&self) -> (r: bool)
        ensures
            r == self.in_range(),
    {
        ONE_SECOND <= self.bits && self.bits <= MAX_DURATION
    }

    /// The number from 1 to 120 that is nearest.
    fn clamp(self) -> (r: Seconds)
        ensures
            r == self.clamped(),
    {
        if self.bits % SIGN > INFINITE {
            self
        } else if self.bits >= SIGN || self.bits < ONE_SECOND {
            Seconds { bits: ONE_SECOND }
        } else if self.bits > MAX_DURATION {
            Seconds { bits: MAX_DURATION }
        } else {
            self
        }
    }
}

/// How long a video is to be: as long as is asked for, else as long as its
/// audio, either brought into the range from 1 to 120 seconds; ten seconds
/// where nothing is asked for and there is no audio.
pub fn video_duration(given: Option<Seconds>, audio: Option<Seconds>) -> (r: Seconds)
    ensures
        r == (match (given, audio) {
            (Some(d), _) => d.clamped(),
            (None, Some(a)) => a.clamped(),
            (None, None) => (Seconds { bits: TEN_SECONDS }),
        }),
{
    match (given, audio) {
        (Some(d), _) => d.clamp(),
        (None, Some(a)) => a.clamp(),
        (None, None) => Seconds { bits: TEN_SECONDS },
    }
}

/// A duration that a request may ask for is kept as it is.
pub proof fn law_accepted_durations_are_kept(d: Seconds)
    requires
        d.in_range(),
    ensures
        d.clamped() == d,
{
}

/// Every duration that is a number is brought into the range.
pub proof fn law_clamped_durations_are_in_range(d: Seconds)
    requires
        !d.not_a_number(),
    ensures
        d.clamped().in_range(),
{
}

/// The range is from 1 to 120 seconds, and what is out of it is brought to its
/// nearer end: negative numbers and those below 1 to 1, those above 120 to 120.
pub proof fn law_durations_are_brought_to_the_nearer_end(d: Seconds)
    ensures
        d.in_range() <==> 0x3FF0_0000_0000_0000 <= d.bits <= 0x405E_0000_0000_0000,
        d.bits < 0x3FF0_0000_0000_0000 ==> d.clamped().bits == 0x3FF0_0000_0000_0000,
        0x8000_0000_0000_0000 <= d.bits <= 0xFFF0_0000_0000_0000 ==> d.clamped().bits
            == 0x3FF0_0000_0000_0000,
        0x405E_0000_0000_0000 < d.bits <= 0x7FF0_0000_0000_0000 ==> d.clamped().bits
            == 0x405E_0000_0000_0000,
        0x3FF0_0000_0000_0000 <= d.bits <= 0x405E_0000_0000_0000 ==> d.clamped() == d,
        0x7FF0_0000_0000_0000 < d.bits < 0x8000_0000_0000_0000 || 0xFFF0_0000_0000_0000 < d.bits
            ==> d.clamped() == d,
{
}

/// A longer duration never becomes a shorter video.
pub proof fn law_longer_durations_are_not_shorter(d: Seconds, e: Seconds)
    requires
        d.bits <= e.bits <= 0x7FF0_0000_0000_0000,
    ensures
        d.clamped().bits <= e.clamped().bits,
{
}

/// Where nothing is said of its length, a video is of a length that might have
/// been asked for: ten seconds.
pub proof fn law_ten_seconds_can_be_asked_for()
    ensures
        TEN_SECONDS == 0x4024_0000_0000_0000,
        (Seconds { bits: TEN_SECONDS }).in_range(),
{
}

}
