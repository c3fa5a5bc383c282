//! The time of day that stamps a log line.

use crate::text::{
    free_of, is_digit, lemma_free_of_append, lemma_zero_padded_free_of, zero_padded,
    zero_padded_text,
};
use std::time::Duration;
use std::time::SystemTime;
use std::time::SystemTimeError;
use vstd::prelude::*;
use vstd::string::*;

verus! {

/// A time of day on a 24-hour clock, to the millisecond.
#[derive(Clone, Copy, Debug, PartialEq, Eq, Structural)]
pub struct TimeOfDay {
    pub hours: u8,
    pub minutes: u8,
    pub seconds: u8,
    pub millis: u16,
}

/// Milliseconds in a second, seconds in a minute, an hour and a day.
pub const MILLIS_PER_SECOND: u128 = 1000;

pub const SECONDS_PER_MINUTE: u128 = 60;

pub const SECONDS_PER_HOUR: u128 = 3600;

pub const SECONDS_PER_DAY: u128 = 86400;

/// The time of day that lies `since_epoch` milliseconds after a midnight.
pub open spec fn time_of_day(since_epoch: nat) -> TimeOfDay {
    let second_of_day = (since_epoch / 1000) % 86400;
    TimeOfDay {
        hours: (second_of_day / 3600) as u8,
        minutes: ((second_of_day % 3600) / 60) as u8,
        seconds: (second_of_day % 60) as u8,
        millis: (since_epoch % 1000) as u16,
    }
}

/// The clock reading in brackets: hours, minutes and seconds in two digits
/// each, milliseconds in three.
pub open spec fn clock_text(t: TimeOfDay) -> Seq<char> {
    seq!['['] + zero_padded_text(t.hours as nat, 2) + seq![':'] + zero_padded_text(
        t.minutes as nat,
        2,
    ) + seq![':'] + zero_padded_text(t.seconds as nat, 2) + seq!['.'] + zero_padded_text(
        t.millis as nat,
        3,
    ) + seq![']']
}

/// A clock reading holds digits, brackets, colons and a full stop only.
pub proof fn lemma_clock_free_of(time: TimeOfDay, c: char)
    requires
        !is_digit(c),
        c != '[',
        c != ']',
        c != ':',
        c != '.',
    ensures
        free_of(clock_text(time), c),
{
    let hours = zero_padded_text(time.hours as nat, 2);
    let minutes = zero_padded_text(time.minutes as nat, 2);
    let seconds = zero_padded_text(time.seconds as nat, 2);
    let millis = zero_padded_text(time.millis as nat, 3);
    lemma_zero_padded_free_of(time.hours as nat, 2, c);
    lemma_zero_padded_free_of(time.minutes as nat, 2, c);
    lemma_zero_padded_free_of(time.seconds as nat, 2, c);
    lemma_zero_padded_free_of(time.millis as nat, 3, c);
    lemma_free_of_append(seq!['['], hours, c);
    lemma_free_of_append(seq!['['] + hours, seq![':'], c);
    lemma_free_of_append(seq!['['] + hours + seq![':'], minutes, c);
    lemma_free_of_append(seq!['['] + hours + seq![':'] + minutes, seq![':'], c);
    lemma_free_of_append(seq!['['] + hours + seq![':'] + minutes + seq![':'], seconds, c);
    lemma_free_of_append(
        seq!['['] + hours + seq![':'] + minutes + seq![':'] + seconds,
        seq!['.'],
        c,
    );
    lemma_free_of_append(
        seq!['['] + hours + seq![':'] + minutes + seq![':'] + seconds + seq!['.'],
        millis,
        c,
    );
    lemma_free_of_append(
        seq!['['] + hours + seq![':'] + minutes + seq![':'] + seconds + seq!['.'] + millis,
        seq![']'],
        c,
    );
}

impl TimeOfDay {
    /// Whether every part lies in its range on the clock.
    pub open spec fn wf(self) -> bool {
        &&& self.hours < 24
        &&& self.minutes < 60
        &&& self.seconds < 60
        &&& self.millis < 1000
    }

    /// Takes the time of day out of a count of milliseconds since an epoch
    /// that fell on a midnight.
    pub fn from_millis(since_epoch: u128) -> (t: TimeOfDay)
        ensures
            t == time_of_day(since_epoch as nat),
            t.wf(),
    {
        let second_of_day: u128 = (since_epoch / MILLIS_PER_SECOND) % SECONDS_PER_DAY;
        let hours: u128 = second_of_day / SECONDS_PER_HOUR;
        let minutes: u128 = (second_of_day % SECONDS_PER_HOUR) / SECONDS_PER_MINUTE;
        let seconds: u128 = second_of_day % SECONDS_PER_MINUTE;
        let millis: u128 = since_epoch % MILLIS_PER_SECOND;
        TimeOfDay {
            hours: hours as u8,
            minutes: minutes as u8,
            seconds: seconds as u8,
            millis: millis as u16,
        }
    }

    /// Writes the clock reading, as `[HH:MM:SS.mmm]`.
    pub fn to_text(&self) -> (out: String)
        ensures
            out@ == clock_text(*self),
    {
        let mut out = String::from_str("[");
        out.append(zero_padded(self.hours as u64, 2).as_str());
        out.append(":");
        out.append(zero_padded(self.minutes as u64, 2).as_str());
        out.append(":");
        out.append(zero_padded(self.seconds as u64, 2).as_str());
        out.append(".");
        out.append(zero_padded(self.millis as u64, 3).as_str());
        out.append("]");
        proof {
            reveal_strlit("[");
            reveal_strlit(":");
            reveal_strlit(".");
            reveal_strlit("]");
            assert(out@ =~= clock_text(*self));
        }
        out
    }
}

/// The clock could not be read as a time after the epoch.
#[derive(Clone, Copy, Debug, PartialEq, Eq, Structural)]
pub struct ClockBeforeEpoch;

#[verifier::external_type_specification]
#[verifier::external_body]
pub struct ExSystemTime(SystemTime);

#[verifier::external_type_specification]
#[verifier::external_body]
pub struct ExSystemTimeError(SystemTimeError);

/// `SystemTime::now`: the system clock. Nothing is known of the reading.
pub assume_specification[ SystemTime::now ]() -> (now: SystemTime);

/// `SystemTime::duration_since`: the time elapsed from `earlier` to the
/// reading, or an error where `earlier` is the later of the two. Nothing is
/// known of the amount.
pub assume_specification[ SystemTime::duration_since ](
    time: &SystemTime,
    earlier: SystemTime,
) -> (elapsed: Result<Duration, SystemTimeError>);

/// `Duration::as_millis`: the whole milliseconds in the duration. Nothing
/// is known of the number.
pub assume_specification[ Duration::as_millis ](elapsed: &Duration) -> (millis: u128);

/// `std::time::UNIX_EPOCH`: the instant from which the clock counts.
#[verifier::external_body]
fn unix_epoch() -> (epoch: SystemTime) {
    std::time::UNIX_EPOCH
}

/// What a reading of the clock stands for: the time of day that lies that
/// many milliseconds after the epoch, or, where there is no count because
/// the clock stands before the epoch, the error that says so.
pub open spec fn reading_time(since_epoch: Option<nat>) -> Result<TimeOfDay, ClockBeforeEpoch> {
    match since_epoch {
        Some(millis) => Ok(time_of_day(millis)),
        None => Err(ClockBeforeEpoch),
    }
}

/// Turns a reading of the clock, the milliseconds since the epoch or none
/// where the clock stands before it, into the time of day. Every count
/// gives a time; only a missing count gives the error.
pub fn time_of_reading(since_epoch: Option<u128>) -> (now: Result<TimeOfDay, ClockBeforeEpoch>)
    ensures
        now == reading_time(
            match since_epoch {
                Some(millis) => Some(millis as nat),
                None => None,
            },
        ),
        now is Ok <==> since_epoch is Some,
        now matches Ok(t) ==> t.wf(),
{
    match since_epoch {
        Some(millis) => Ok(TimeOfDay::from_millis(millis)),
        None => Err(ClockBeforeEpoch),
    }
}

/// Reads the system clock and gives the time of day in universal time, or
/// an error where the clock stands before the epoch. Which of the two it
/// is, and which time, lies with the clock: `time_of_reading` says what
/// comes of each reading.
pub fn read_clock() -> (now: Result<TimeOfDay, ClockBeforeEpoch>)
    ensures
        now matches Ok(t) ==> t.wf(),
{
    let reading = SystemTime::now();
    let since_epoch: Option<u128> = match reading.duration_since(unix_epoch()) {
        Ok(elapsed) => Some(elapsed.as_millis()),
        Err(_) => None,
    };
    time_of_reading(since_epoch)
}

} // verus!
