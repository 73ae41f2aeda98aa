//! Transaction numbers and session times, taken from the clock.

use vstd::prelude::*;

verus! {

/// How far back a session is dated, in seconds, so that the block that its random
/// number comes from is never older than the session.
pub const SESSION_BACKDATE_SECS: i64 = 120;

/// Milliseconds since the epoch in the upper 48 bits, and the lowest 16 bits of a
/// running number below them. A time before the epoch counts as the epoch.
pub open spec fn nonce_of(millis: i64, seq: u64) -> u64 {
    let ms = if millis < 0 {
        0
    } else {
        millis as int
    };
    ((ms * 0x1_0000) % 0x1_0000_0000_0000_0000 + seq % 0x1_0000) as u64
}

/// The creation time of a session that is opened at that time: a little earlier, but
/// never before the first second of the epoch.
pub open spec fn created_at_of(now: i64) -> u64 {
    if now - SESSION_BACKDATE_SECS > 1 {
        (now - SESSION_BACKDATE_SECS) as u64
    } else {
        1
    }
}

/// Calls `Utc::now` and `timestamp_millis` of the crate `chrono`. Nothing is claimed of
/// the result, which is the machine's clock.
#[verifier::external_body]
fn now_millis() -> i64 {
    chrono::Utc::now().timestamp_millis()
}

/// Calls `Utc::now` and `timestamp` of the crate `chrono`. Nothing is claimed of the
/// result, which is the machine's clock.
#[verifier::external_body]
fn now_secs() -> i64 {
    chrono::Utc::now().timestamp()
}

/// The nonce of a moment and a running number.
pub fn nonce_at(millis: i64, seq: u64) -> (r: u64)
    ensures
        r == nonce_of(millis, seq),
{
    let ms: u64 = if millis < 0 {
        0
    } else {
        millis as u64
    };
    let r: u64 = (ms << 16) | (seq & 0xFFFF);
    assert(r == (ms * 0x1_0000) % 0x1_0000_0000_0000_0000 + seq % 0x1_0000) by (bit_vector)
        requires
            r == (ms << 16) | (seq & 0xFFFF),
    ;
    r
}

/// Hands out nonces that several sessions can use side by side.
#[derive(Debug, PartialEq, Eq)]
pub struct NonceSource {
    pub counter: u64,
}

impl NonceSource {
    /// A source that has handed out nothing yet.
    pub fn new() -> (r: NonceSource)
        ensures
            r.counter == 0,
    {
        NonceSource { counter: 0 }
    }

    /// The nonce of the present moment. The running number goes on by one, and starts
    /// again from zero after the largest.
    pub fn next_nonce(&mut self) -> (r: u64)
        ensures
            exists|millis: i64| r == #[trigger] nonce_of(millis, old(self).counter),
            final(self).counter == (old(self).counter + 1) % 0x1_0000_0000_0000_0000,
    {
        let seq: u64 = self.counter;
        self.counter = seq.wrapping_add(1);
        nonce_at(now_millis(), seq)
    }
}

/// The creation time of a session that is opened at that time.
pub fn session_created_at(now: i64) -> (r: u64)
    ensures
        r == created_at_of(now),
{
    if now > SESSION_BACKDATE_SECS + 1 {
        (now - SESSION_BACKDATE_SECS) as u64
    } else {
        1
    }
}

/// The creation time of a session that is opened now.
pub fn session_created_now() -> (r: u64)
    ensures
        exists|now: i64| r == #[trigger] created_at_of(now),
{
    session_created_at(now_secs())
}

/// Within 65536 draws from one source no nonce comes twice, whatever the clock does.
pub proof fn law_nearby_nonces_differ(first_ms: i64, second_ms: i64, seq: u64, draws: u64)
    requires
        0 < draws < 0x1_0000,
    ensures
        nonce_of(first_ms, seq) != nonce_of(
            second_ms,
            ((seq + draws) % 0x1_0000_0000_0000_0000) as u64,
        ),
{
    let later = ((seq + draws) % 0x1_0000_0000_0000_0000) as u64;
    lemma_low_bits(first_ms, seq);
    lemma_low_bits(second_ms, later);
    assert(later % 0x1_0000 != seq % 0x1_0000);
}

/// Nonces of different milliseconds differ, for every time that 48 bits can hold.
pub proof fn law_nonces_of_different_times_differ(
    first_ms: i64,
    second_ms: i64,
    first_seq: u64,
    second_seq: u64,
)
    requires
        0 <= first_ms < 0x1_0000_0000_0000,
        0 <= second_ms < 0x1_0000_0000_0000,
        first_ms != second_ms,
    ensures
        nonce_of(first_ms, first_seq) != nonce_of(second_ms, second_seq),
{
}

/// A session is dated before the moment it is opened, once the epoch is two minutes old.
pub proof fn law_session_is_backdated(now: i64)
    requires
        now > SESSION_BACKDATE_SECS,
    ensures
        created_at_of(now) + SESSION_BACKDATE_SECS == now,
{
}

/// The lowest 16 bits of a nonce are those of the running number.
proof fn lemma_low_bits(millis: i64, seq: u64)
    ensures
        nonce_of(millis, seq) % 0x1_0000 == seq % 0x1_0000,
{
    let ms = if millis < 0 {
        0
    } else {
        millis as int
    };
    let high = (ms * 0x1_0000) % 0x1_0000_0000_0000_0000;
    assert(high % 0x1_0000 == 0);
}

/// A nonce is the time times 65536 plus the running number's lowest 16 bits, for every
/// time that 48 bits can hold; a time before the epoch counts as the epoch.
pub proof fn law_nonce_holds_time_and_number(millis: i64, seq: u64)
    ensures
        0 <= millis < 0x1_0000_0000_0000 ==> nonce_of(millis, seq) as int == millis * 65536 + (
        seq as int) % 65536,
        0 <= millis < 0x1_0000_0000_0000 ==> nonce_of(millis, seq) as int / 65536 == millis,
        millis <= 0 ==> nonce_of(millis, seq) as int == (seq as int) % 65536,
{
}

/// Nonces of one client grow with the clock.
pub proof fn law_later_nonces_are_larger(
    first_ms: i64,
    second_ms: i64,
    first_seq: u64,
    second_seq: u64,
)
    requires
        0 <= first_ms < second_ms < 0x1_0000_0000_0000,
    ensures
        nonce_of(first_ms, first_seq) < nonce_of(second_ms, second_seq),
{
}

/// A session is dated exactly 120 seconds back, and to the first second of the epoch where
/// that would be earlier.
pub proof fn law_session_is_dated_two_minutes_back(now: i64)
    ensures
        now > 120 ==> created_at_of(now) == now - 120,
        now <= 120 ==> created_at_of(now) == 1,
{
}

/// A time that 48 bits cannot hold loses its highest bits and nothing else.
pub proof fn law_distant_times_wrap(millis: i64, seq: u64)
    requires
        millis >= 0,
    ensures
        (millis * 65536 + (seq as int) % 65536 - nonce_of(millis, seq)) % 0x1_0000_0000_0000_0000
            == 0,
{
}

} // verus!
