//! Quota and anti-ban counter engine.
//!
//! Tracks per-tenant send counters against immutable limits, computes
//! admission decisions and human-like delays, and owns the daily and
//! weekly reset operations. The engine never fails: admission must be
//! checked before recording, and recording trusts its caller.

use vstd::prelude::*;

use chrono::Datelike;
use rand::Rng;

verus! {

/// A UTC instant reduced to what the reset logic reads: a day number and
/// the calendar year with its ISO week number.
#[derive(Debug, Clone, Copy, PartialEq, Eq, Structural)]
pub struct ClockStamp {
    /// Days since the start of the common era.
    pub day: i32,
    /// Calendar year.
    pub year: i32,
    /// ISO week number within the year, 1 to 53.
    pub week: u32,
}

/// Relies on chrono's `Utc::now`, `num_days_from_ce`, `year` and
/// `iso_week`: the fields describe the current UTC instant, and the ISO
/// week number lies between 1 and 53.
#[verifier::external_body]
fn current_stamp() -> (now: ClockStamp)
    ensures
        1 <= now.week <= 53,
{
    let instant = chrono::Utc::now();
    let date = instant.date_naive();
    ClockStamp { day: date.num_days_from_ce(), year: date.year(), week: date.iso_week().week() }
}

/// Relies on rand's `thread_rng` and `Rng::gen_range`: the result lies in
/// the given half-open range.
#[verifier::external_body]
fn random_in_range(lo: u64, hi: u64) -> (drawn: u64)
    requires
        lo < hi,
    ensures
        lo <= drawn < hi,
{
    rand::thread_rng().gen_range(lo..hi)
}

/// Immutable per-tenant ceilings, configured at startup.
#[derive(Debug, Clone, Copy, PartialEq, Eq, Structural)]
pub struct QuotaLimits {
    pub messages_per_day: u32,
    pub messages_per_week: u32,
    pub images_per_day: u32,
    pub videos_per_week: u32,
}

/// Mutable counters, monotonically non-decreasing between resets.
#[derive(Debug, Clone, Copy, PartialEq, Eq, Structural)]
pub struct QuotaUsage {
    pub messages_today: u32,
    pub messages_this_week: u32,
    pub images_today: u32,
    pub videos_this_week: u32,
    pub last_reset: ClockStamp,
}

/// A message may be sent: both message counters are strictly below their
/// limits.
pub open spec fn spec_can_send_message(usage: QuotaUsage, limits: QuotaLimits) -> bool {
    usage.messages_today < limits.messages_per_day && usage.messages_this_week
        < limits.messages_per_week
}

/// Media may be sent: the counter owned by the media kind is strictly
/// below its limit.
pub open spec fn spec_can_send_media(usage: QuotaUsage, limits: QuotaLimits, is_video: bool) -> bool {
    if is_video {
        usage.videos_this_week < limits.videos_per_week
    } else {
        usage.images_today < limits.images_per_day
    }
}

/// The progressive anti-ban factor: triple near the daily ceiling, double
/// past half of it, single otherwise. A zero limit counts as already near
/// the ceiling as soon as anything was sent.
pub open spec fn spec_delay_factor(messages_today: u32, messages_per_day: u32) -> u64 {
    if messages_per_day == 0 {
        if messages_today == 0 {
            1
        } else {
            3
        }
    } else if 5 * messages_today > 4 * messages_per_day {
        3
    } else if 2 * messages_today > messages_per_day {
        2
    } else {
        1
    }
}

/// Effect of recording one sent message on the counters.
pub open spec fn spec_record_message(usage: QuotaUsage) -> QuotaUsage {
    QuotaUsage {
        messages_today: (usage.messages_today + 1) as u32,
        messages_this_week: (usage.messages_this_week + 1) as u32,
        ..usage
    }
}

/// Effect of the daily reset: zeroes exactly the two daily counters and
/// stamps the reset instant.
pub open spec fn spec_daily_reset(usage: QuotaUsage, now: ClockStamp) -> QuotaUsage {
    QuotaUsage { messages_today: 0, images_today: 0, last_reset: now, ..usage }
}

/// Effect of the weekly reset: zeroes exactly the two weekly counters and
/// stamps the reset instant.
pub open spec fn spec_weekly_reset(usage: QuotaUsage, now: ClockStamp) -> QuotaUsage {
    QuotaUsage { messages_this_week: 0, videos_this_week: 0, last_reset: now, ..usage }
}

/// The daily reset is due: the current date is strictly after the date of
/// the last reset.
pub open spec fn spec_needs_daily_reset(usage: QuotaUsage, now: ClockStamp) -> bool {
    now.day > usage.last_reset.day
}

/// The weekly reset is due: the current year or ISO week number is
/// strictly after that of the last reset.
pub open spec fn spec_needs_weekly_reset(usage: QuotaUsage, now: ClockStamp) -> bool {
    now.year > usage.last_reset.year || now.week > usage.last_reset.week
}

/// Counters after recording `n` sent messages one by one.
pub open spec fn spec_messages_after(usage: QuotaUsage, n: nat) -> QuotaUsage
    decreases n,
{
    if n == 0 {
        usage
    } else {
        spec_record_message(spec_messages_after(usage, (n - 1) as nat))
    }
}

/// Prevents automated-looking behavior by keeping send volume under
/// per-tenant ceilings and pacing sends like a human.
pub struct QuotaEngine {
    pub limits: QuotaLimits,
    pub usage: QuotaUsage,
}

impl QuotaEngine {
    /// A fresh engine: all counters zero, the last reset stamped now.
    pub fn new(limits: QuotaLimits) -> (engine: Self)
        ensures
            engine.limits == limits,
            engine.usage.messages_today == 0,
            engine.usage.messages_this_week == 0,
            engine.usage.images_today == 0,
            engine.usage.videos_this_week == 0,
            1 <= engine.usage.last_reset.week <= 53,
    {
        let now = current_stamp();
        Self {
            limits,
            usage: QuotaUsage {
                messages_today: 0,
                messages_this_week: 0,
                images_today: 0,
                videos_this_week: 0,
                last_reset: now,
            },
        }
    }

    /// Admission check for a text message.
    pub fn can_send_message(&self) -> (allowed: bool)
        ensures
            allowed == spec_can_send_message(self.usage, self.limits),
    {
        self.usage.messages_today < self.limits.messages_per_day
            && self.usage.messages_this_week < self.limits.messages_per_week
    }

    /// Admission check for media of the given kind.
    pub fn can_send_media(&self, is_video: bool) -> (allowed: bool)
        ensures
            allowed == spec_can_send_media(self.usage, self.limits, is_video),
    {
        if is_video {
            self.usage.videos_this_week < self.limits.videos_per_week
        } else {
            self.usage.images_today < self.limits.images_per_day
        }
    }

    /// Records one sent message. Admission must have been checked first:
    /// the engine trusts its caller and never rejects a record call.
    pub fn record_message(&mut self)
        requires
            old(self).usage.messages_today < u32::MAX,
            old(self).usage.messages_this_week < u32::MAX,
        ensures
            final(self).usage == spec_record_message(old(self).usage),
            final(self).limits == old(self).limits,
    {
        self.usage.messages_today = self.usage.messages_today + 1;
        self.usage.messages_this_week = self.usage.messages_this_week + 1;
    }

    /// Records one sent media item of the given kind.
    pub fn record_media(&mut self, is_video: bool)
        requires
            is_video ==> old(self).usage.videos_this_week < u32::MAX,
            !is_video ==> old(self).usage.images_today < u32::MAX,
        ensures
            is_video ==> final(self).usage == (QuotaUsage {
                videos_this_week: (old(self).usage.videos_this_week + 1) as u32,
                ..old(self).usage
            }),
            !is_video ==> final(self).usage == (QuotaUsage {
                images_today: (old(self).usage.images_today + 1) as u32,
                ..old(self).usage
            }),
            final(self).limits == old(self).limits,
    {
        if is_video {
            self.usage.videos_this_week = self.usage.videos_this_week + 1;
        } else {
            self.usage.images_today = self.usage.images_today + 1;
        }
    }

    /// A human-like pause: a random base of 2 to 7 seconds, stretched by
    /// the progressive factor as the tenant approaches its daily ceiling.
    /// The result always lies between 2 and 24 seconds.
    pub fn calculate_delay(&self) -> (delay: u64)
        ensures
            2 * spec_delay_factor(self.usage.messages_today, self.limits.messages_per_day)
                <= delay,
            delay <= 7 * spec_delay_factor(
                self.usage.messages_today,
                self.limits.messages_per_day,
            ),
            2 <= delay <= 24,
    {
        let base = random_in_range(2, 8);
        let today = self.usage.messages_today as u64;
        let per_day = self.limits.messages_per_day as u64;
        let factor: u64 = if per_day == 0 {
            if today == 0 {
                1
            } else {
                3
            }
        } else if 5 * today > 4 * per_day {
            3
        } else if 2 * today > per_day {
            2
        } else {
            1
        };
        base * factor
    }

    /// The current counters.
    pub fn get_usage(&self) -> (usage: &QuotaUsage)
        ensures
            usage == &self.usage,
    {
        &self.usage
    }

    /// Daily reset against an explicit clock reading: zeroes exactly
    /// `messages_today` and `images_today`, stamps the reset instant, and
    /// leaves the weekly counters and the limits alone.
    pub fn reset_daily_at(&mut self, now: ClockStamp)
        ensures
            final(self).usage == spec_daily_reset(old(self).usage, now),
            final(self).limits == old(self).limits,
    {
        self.usage.messages_today = 0;
        self.usage.images_today = 0;
        self.usage.last_reset = now;
    }

    /// Daily reset against the current clock.
    pub fn reset_daily(&mut self)
        ensures
            final(self).usage == spec_daily_reset(old(self).usage, final(self).usage.last_reset),
            final(self).limits == old(self).limits,
            1 <= final(self).usage.last_reset.week <= 53,
    {
        let now = current_stamp();
        self.reset_daily_at(now);
    }

    /// Weekly reset against an explicit clock reading: zeroes exactly
    /// `messages_this_week` and `videos_this_week`, stamps the reset
    /// instant, and leaves the daily counters and the limits alone.
    pub fn reset_weekly_at(&mut self, now: ClockStamp)
        ensures
            final(self).usage == spec_weekly_reset(old(self).usage, now),
            final(self).limits == old(self).limits,
    {
        self.usage.messages_this_week = 0;
        self.usage.videos_this_week = 0;
        self.usage.last_reset = now;
    }

    /// Weekly reset against the current clock.
    pub fn reset_weekly(&mut self)
        ensures
            final(self).usage == spec_weekly_reset(old(self).usage, final(self).usage.last_reset),
            final(self).limits == old(self).limits,
            1 <= final(self).usage.last_reset.week <= 53,
    {
        let now = current_stamp();
        self.reset_weekly_at(now);
    }

    /// Whether the daily reset is due at an explicit clock reading.
    pub fn needs_daily_reset_at(&self, now: &ClockStamp) -> (needed: bool)
        ensures
            needed == spec_needs_daily_reset(self.usage, *now),
    {
        now.day > self.usage.last_reset.day
    }

    /// Whether the daily reset is due now. The answer depends on the
    /// current clock; the decision itself is `needs_daily_reset_at`.
    pub fn needs_daily_reset(&self) -> bool {
        let now = current_stamp();
        self.needs_daily_reset_at(&now)
    }

    /// Whether the weekly reset is due at an explicit clock reading.
    pub fn needs_weekly_reset_at(&self, now: &ClockStamp) -> (needed: bool)
        ensures
            needed == spec_needs_weekly_reset(self.usage, *now),
    {
        now.year > self.usage.last_reset.year || now.week > self.usage.last_reset.week
    }

    /// Whether the weekly reset is due now. The answer depends on the
    /// current clock; the decision itself is `needs_weekly_reset_at`.
    pub fn needs_weekly_reset(&self) -> bool {
        let now = current_stamp();
        self.needs_weekly_reset_at(&now)
    }
}

impl Default for QuotaEngine {
    /// The stock limits: 200 messages and 50 images a day, 1000 messages
    /// and 20 videos a week.
    fn default() -> (engine: Self)
        ensures
            engine.limits == (QuotaLimits {
                messages_per_day: 200,
                messages_per_week: 1000,
                images_per_day: 50,
                videos_per_week: 20,
            }),
            engine.usage.messages_today == 0,
            engine.usage.messages_this_week == 0,
            engine.usage.images_today == 0,
            engine.usage.videos_this_week == 0,
    {
        Self::new(
            QuotaLimits {
                messages_per_day: 200,
                messages_per_week: 1000,
                images_per_day: 50,
                videos_per_week: 20,
            },
        )
    }
}

/// Resets are idempotent: running a reset twice is a no-op beyond
/// re-stamping the reset instant, for each family.
pub proof fn lemma_reset_idempotent(usage: QuotaUsage, first: ClockStamp, second: ClockStamp)
    ensures
        spec_daily_reset(spec_daily_reset(usage, first), second) == spec_daily_reset(
            usage,
            second,
        ),
        spec_weekly_reset(spec_weekly_reset(usage, first), second) == spec_weekly_reset(
            usage,
            second,
        ),
{
}

/// Recording messages one by one moves only the two message counters, and
/// moves each by exactly the number of messages recorded.
pub proof fn lemma_messages_after_counts(usage: QuotaUsage, n: nat)
    requires
        usage.messages_today + n <= u32::MAX,
        usage.messages_this_week + n <= u32::MAX,
    ensures
        spec_messages_after(usage, n).messages_today == usage.messages_today + n,
        spec_messages_after(usage, n).messages_this_week == usage.messages_this_week + n,
        spec_messages_after(usage, n).images_today == usage.images_today,
        spec_messages_after(usage, n).videos_this_week == usage.videos_this_week,
        spec_messages_after(usage, n).last_reset == usage.last_reset,
    decreases n,
{
    if n > 0 {
        lemma_messages_after_counts(usage, (n - 1) as nat);
    }
}

/// The daily quota round trip: from fresh daily counters, recording
/// exactly the daily message limit exhausts the day's admission; the
/// daily reset restores it while leaving the weekly counters exactly as
/// the recordings left them.
pub proof fn lemma_daily_quota_cycle(usage: QuotaUsage, limits: QuotaLimits, now: ClockStamp)
    requires
        usage.messages_today == 0,
        spec_can_send_message(usage, limits),
        usage.messages_this_week + limits.messages_per_day < limits.messages_per_week,
    ensures
        !spec_can_send_message(
            spec_messages_after(usage, limits.messages_per_day as nat),
            limits,
        ),
        spec_can_send_message(
            spec_daily_reset(spec_messages_after(usage, limits.messages_per_day as nat), now),
            limits,
        ),
        spec_daily_reset(
            spec_messages_after(usage, limits.messages_per_day as nat),
            now,
        ).messages_this_week == usage.messages_this_week + limits.messages_per_day,
        spec_daily_reset(
            spec_messages_after(usage, limits.messages_per_day as nat),
            now,
        ).videos_this_week == usage.videos_this_week,
{
    lemma_messages_after_counts(usage, limits.messages_per_day as nat);
}

} // verus!
