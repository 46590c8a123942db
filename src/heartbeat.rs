use vstd::prelude::*;

use core::sync::atomic::{AtomicBool, Ordering};

verus! {

/// Tick interval of the engine's run loop when none is configured.
pub const DEFAULT_TICK_INTERVAL_MS: u64 = 200;

/// The tick interval that a configured value gives.
pub fn tick_interval_ms(configured: Option<u64>) -> (r: u64)
    ensures
        r == (match configured {
            Some(v) => v,
            None => DEFAULT_TICK_INTERVAL_MS,
        }),
{
    match configured {
        Some(v) => v,
        None => DEFAULT_TICK_INTERVAL_MS,
    }
}

/// Whether a character has Unicode's White_Space property.
pub open spec fn is_white_space(c: char) -> bool {
    let u = c as u32;
    (0x09 <= u && u <= 0x0d) || u == 0x20 || u == 0x85 || u == 0xa0 || u == 0x1680 || (0x2000 <= u
        && u <= 0x200a) || u == 0x2028 || u == 0x2029 || u == 0x202f || u == 0x205f || u == 0x3000
}

/// A text without its leading white space.
pub open spec fn trim_start(s: Seq<char>) -> Seq<char>
    decreases s.len(),
{
    if s.len() > 0 && is_white_space(s[0]) {
        trim_start(s.drop_first())
    } else {
        s
    }
}

/// A text without its trailing white space.
pub open spec fn trim_end(s: Seq<char>) -> Seq<char>
    decreases s.len(),
{
    if s.len() > 0 && is_white_space(s.last()) {
        trim_end(s.drop_last())
    } else {
        s
    }
}

/// A text without its leading and trailing white space.
pub open spec fn trimmed(s: Seq<char>) -> Seq<char> {
    trim_end(trim_start(s))
}

/// Relies on str::trim: the text without its leading and trailing
/// characters of Unicode's White_Space property.
#[verifier::external_body]
fn trim(s: &str) -> (r: &str)
    ensures
        r@ == trimmed(s@),
{
    s.trim()
}

pub open spec fn is_digit(c: char) -> bool {
    '0' <= c && c <= '9'
}

/// The number that a run of decimal digits stands for.
pub open spec fn digits_value(s: Seq<char>) -> int
    decreases s.len(),
{
    if s.len() == 0 {
        0
    } else {
        digits_value(s.drop_last()) * 10 + (s.last() as u32 - '0' as u32)
    }
}

/// The digits of an unsigned number's text, after its optional `+`.
pub open spec fn unsigned_digits(s: Seq<char>) -> Seq<char> {
    if s.len() > 0 && s[0] == '+' {
        s.drop_first()
    } else {
        s
    }
}

/// The `u64` that a text stands for: an optional `+` and at least one
/// decimal digit, with a value that fits.
pub open spec fn u64_of_text(s: Seq<char>) -> Option<u64> {
    let d = unsigned_digits(s);
    if d.len() > 0 && (forall|i: int| 0 <= i < d.len() ==> is_digit(#[trigger] d[i])) && digits_value(d)
        <= u64::MAX {
        Some(digits_value(d) as u64)
    } else {
        None
    }
}

/// Relies on str::parse for u64: it accepts an optional `+` followed by
/// decimal digits whose value fits, and nothing else.
#[verifier::external_body]
fn parse_u64(s: &str) -> (r: Option<u64>)
    ensures
        r == u64_of_text(s@),
{
    s.parse::<u64>().ok()
}

/// The milliseconds that an already trimmed setting gives: its number when
/// it is one, `default` otherwise.
pub fn millis_of_text(text: &str, default: u64) -> (r: u64)
    ensures
        r == (match u64_of_text(text@) {
            Some(v) => v,
            None => default,
        }),
{
    match parse_u64(text) {
        Some(v) => v,
        None => default,
    }
}

/// The milliseconds that a setting of the run loop (its tick interval, or
/// its idle timeout) gives: the number it holds, once trimmed, or `default`
/// when it is unset or holds no number.
pub fn millis_setting(setting: Option<&str>, default: u64) -> (r: u64)
    ensures
        r == (match setting {
            Some(s) => match u64_of_text(trimmed(s@)) {
                Some(v) => v,
                None => default,
            },
            None => default,
        }),
{
    match setting {
        Some(s) => millis_of_text(trim(s), default),
        None => default,
    }
}

/// Asks the liveness gate to keep the engine running: sets the liveness flag with a
/// release store. Never blocks; asking twice is the same as asking once.
pub fn request_heartbeat(flag: &AtomicBool) {
    flag.store(true, Ordering::Release);
}

/// Reads and clears the liveness flag with an acquire swap: whether a
/// heartbeat was asked for since the last call.
pub fn take_heartbeat(flag: &AtomicBool) -> bool {
    flag.swap(false, Ordering::Acquire)
}

/// `a + b`, or `u64::MAX` when that does not fit.
pub open spec fn sat_add(a: u64, b: u64) -> u64 {
    if a + b > u64::MAX {
        u64::MAX
    } else {
        (a + b) as u64
    }
}

/// The idle time after one tick of `elapsed_ms` milliseconds.
pub open spec fn spec_next_idle(idle_ms: u64, beat: bool, elapsed_ms: u64) -> u64 {
    if beat {
        0
    } else {
        sat_add(idle_ms, elapsed_ms)
    }
}

/// The liveness gate: how long the engine has gone without a heartbeat, and
/// how long it may.
pub struct HeartbeatGate {
    pub idle_ms: u64,
    pub timeout_ms: u64,
}

impl HeartbeatGate {
    pub fn new(timeout_ms: u64) -> (r: HeartbeatGate)
        ensures
            r.idle_ms == 0,
            r.timeout_ms == timeout_ms,
    {
        HeartbeatGate { idle_ms: 0, timeout_ms }
    }

    /// Whether the run loop may go on with the liveness gate in this state.
    pub open spec fn alive(&self) -> bool {
        self.idle_ms <= self.timeout_ms
    }

    /// Accounts for one tick of `elapsed_ms` milliseconds: a heartbeat
    /// resets the idle time to zero, silence adds to it. Returns whether the
    /// run loop goes on; it stops once the idle time exceeds the timeout.
    pub fn on_tick(&mut self, beat: bool, elapsed_ms: u64) -> (keep_running: bool)
        ensures
            final(self).timeout_ms == old(self).timeout_ms,
            final(self).idle_ms == spec_next_idle(old(self).idle_ms, beat, elapsed_ms),
            keep_running == final(self).alive(),
    {
        if beat {
            self.idle_ms = 0;
        } else {
            self.idle_ms = self.idle_ms.saturating_add(elapsed_ms);
        }
        self.idle_ms <= self.timeout_ms
    }
}

/// One tick of the liveness gate: takes the flag and accounts for the tick.
/// Whatever the flag held, the idle time is either reset or grown by the
/// tick, and the result says whether the run loop goes on.
pub fn gate_tick(gate: &mut HeartbeatGate, flag: &AtomicBool, elapsed_ms: u64) -> (keep_running: bool)
    ensures
        final(gate).timeout_ms == old(gate).timeout_ms,
        final(gate).idle_ms == 0 || final(gate).idle_ms == sat_add(old(gate).idle_ms, elapsed_ms),
        keep_running == final(gate).alive(),
{
    let beat = take_heartbeat(flag);
    gate.on_tick(beat, elapsed_ms)
}

/// The sum of the tick lengths of a run.
pub open spec fn total(ticks: Seq<u64>) -> nat
    decreases ticks.len(),
{
    if ticks.len() == 0 {
        0
    } else {
        total(ticks.drop_last()) + ticks.last() as nat
    }
}

/// The idle time after a run of ticks with no heartbeat.
pub open spec fn silent_run(idle_ms: u64, ticks: Seq<u64>) -> u64
    decreases ticks.len(),
{
    if ticks.len() == 0 {
        idle_ms
    } else {
        spec_next_idle(silent_run(idle_ms, ticks.drop_last()), false, ticks.last())
    }
}

proof fn lemma_silent_run_sum(idle_ms: u64, ticks: Seq<u64>)
    ensures
        silent_run(idle_ms, ticks) as int == (if idle_ms + total(ticks) > u64::MAX {
            u64::MAX as int
        } else {
            idle_ms + total(ticks)
        }),
    decreases ticks.len(),
{
    if ticks.len() > 0 {
        lemma_silent_run_sum(idle_ms, ticks.drop_last());
    }
}

/// With no heartbeat, once the ticks since the last one add up to more than
/// the timeout, the liveness gate stops the run loop.
pub proof fn lemma_silence_stops(gate: HeartbeatGate, ticks: Seq<u64>)
    requires
        gate.timeout_ms < u64::MAX,
        gate.idle_ms + total(ticks) > gate.timeout_ms,
    ensures
        !(HeartbeatGate { idle_ms: silent_run(gate.idle_ms, ticks), timeout_ms: gate.timeout_ms }).alive(),
{
    lemma_silent_run_sum(gate.idle_ms, ticks);
}

/// A heartbeat resets the idle time, so the run loop goes on through every
/// later silent tick until the ticks since the heartbeat add up to more than
/// the timeout: from any state, a tick with a heartbeat followed by silent
/// ticks of total length within the timeout leaves the loop running.
pub proof fn lemma_heartbeat_keeps_alive(gate: HeartbeatGate, elapsed_ms: u64, ticks: Seq<u64>)
    requires
        total(ticks) <= gate.timeout_ms,
    ensures
        (HeartbeatGate {
            idle_ms: silent_run(spec_next_idle(gate.idle_ms, true, elapsed_ms), ticks),
            timeout_ms: gate.timeout_ms,
        }).alive(),
{
    lemma_silent_run_sum(0, ticks);
}

} // verus!
