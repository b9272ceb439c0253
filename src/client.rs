//! The decisions of the requesting side.
//!
//! A requester sends one display request again and again, at most once per
//! pacing period, until a terminal reply comes back or the timeout passes.
//! An acknowledgment means the responder is alive and still working: it
//! starts the timeout afresh. Times are milliseconds since the request began.

use vstd::prelude::*;
use crate::packet::{decoded, encoding, EncodeError, RivPacket, MAX_NAME_LENGTH, CODE_ACK, CODE_DISPLAY, CODE_OK};
use vstd::utf8::encode_utf8;

verus! {

/// The pacing period, which is also how long one receive waits.
pub const MIN_LOOP_MS: u64 = 250;

/// `a + b`, or `u64::MAX` where that does not fit.
pub open spec fn saturated(a: u64, b: u64) -> u64 {
    if a + b > u64::MAX {
        u64::MAX
    } else {
        (a + b) as u64
    }
}

/// How long to sleep so that an iteration that began at `tick` lasts at
/// least `period`, when it is `now`.
pub open spec fn pause(tick: u64, now: u64, period: u64) -> u64 {
    let elapsed = if now > tick {
        now - tick
    } else {
        0
    };
    if elapsed < period {
        (period - elapsed) as u64
    } else {
        0
    }
}

/// Where the current iteration is taken to begin once a reply that bears on
/// nothing came at `now`: an iteration that has lasted a whole `period`
/// already is over, so the timeout keeps running however many such replies
/// come.
pub open spec fn caught_up(tick: u64, now: u64, period: u64) -> u64 {
    if now > tick && now - tick >= period {
        now
    } else {
        tick
    }
}

/// The clock of one request: when the timeout began, and when the current
/// iteration began.
#[derive(Clone, Copy, Debug)]
pub struct Timer {
    pub start: u64,
    pub timer: u64,
}

impl Timer {
    /// Both marks at `now`.
    pub fn new(now: u64) -> (r: Timer)
        ensures
            r.start == now,
            r.timer == now,
    {
        Timer { start: now, timer: now }
    }

    /// Starts the timeout afresh at the current iteration.
    pub fn reset(&mut self)
        ensures
            final(self).start == old(self).timer,
            final(self).timer == old(self).timer,
    {
        self.start = self.timer;
    }

    /// Returns how long to sleep so that the current iteration lasts at least
    /// `period`, and moves to the next iteration.
    pub fn wait_if_too_fast(&mut self, now: u64, period: u64) -> (sleep: u64)
        ensures
            sleep == pause(old(self).timer, now, period),
            final(self).timer == saturated(old(self).timer, period),
            final(self).start == old(self).start,
    {
        let elapsed = if now > self.timer {
            now - self.timer
        } else {
            0
        };
        self.timer = self.timer.saturating_add(period);
        if elapsed < period {
            period - elapsed
        } else {
            0
        }
    }

    /// Moves to a new iteration at `now` if the current one has lasted
    /// `period` already.
    pub fn catch_up(&mut self, now: u64, period: u64)
        requires
            old(self).start <= old(self).timer,
        ensures
            final(self).timer == caught_up(old(self).timer, now, period),
            final(self).start == old(self).start,
            final(self).start <= final(self).timer,
    {
        if now > self.timer && now - self.timer >= period {
            self.timer = now;
        }
    }
}

/// How a reply bears on a request.
#[derive(PartialEq, Eq, Structural, Clone, Copy, Debug)]
pub enum ReplyKind {
    /// Malformed, a request itself, or about another request.
    Ignore,
    /// The responder is alive and still working.
    Ack,
    /// The responder is done; `true` when the image was shown.
    Done(bool),
}

/// How the datagram `data` answers a request for `name` on `color`.
pub open spec fn reply_kind(data: Seq<u8>, color: u32, name: Seq<char>) -> ReplyKind {
    match decoded(data) {
        Ok(p) => if p.code == CODE_DISPLAY || p.color != color || p.name != name {
            ReplyKind::Ignore
        } else if p.code == CODE_ACK {
            ReplyKind::Ack
        } else {
            ReplyKind::Done(p.code == CODE_OK)
        },
        Err(_) => ReplyKind::Ignore,
    }
}

/// What the requester does next.
#[derive(PartialEq, Eq, Structural, Clone, Copy, Debug)]
pub enum Step {
    /// Sleep this long, then go on while the request is pending.
    Retry(u64),
    /// The responder answered; `true` when the image was shown.
    Done(bool),
}

/// What a requester holds.
pub struct RequesterModel {
    pub color: u32,
    pub name: Seq<char>,
    pub timeout: u64,
    pub start: u64,
    pub timer: u64,
}

impl RequesterModel {
    /// The request goes on: the timeout has not passed since it last began.
    pub open spec fn pending(self) -> bool {
        self.timer - self.start < self.timeout
    }
}

/// One display request in progress.
pub struct Requester {
    color: u32,
    name: String,
    timeout: u64,
    request: Vec<u8>,
    clock: Timer,
}

impl View for Requester {
    type V = RequesterModel;

    closed spec fn view(&self) -> RequesterModel {
        RequesterModel {
            color: self.color,
            name: self.name@,
            timeout: self.timeout,
            start: self.clock.start,
            timer: self.clock.timer,
        }
    }
}

impl Requester {
    #[verifier::type_invariant]
    closed spec fn inv(&self) -> bool {
        &&& self.clock.start <= self.clock.timer
        &&& self.request@ == encoding(CODE_DISPLAY, self.color, self.name@)
    }

    /// Starts a request at `now`. A zero timeout asks for no attempt at all:
    /// the caller is to serve itself.
    pub fn new(timeout: u64, color: u32, name: &str, now: u64) -> (r: Result<
        Option<Requester>,
        EncodeError,
    >)
        ensures
            timeout == 0 ==> r matches Ok(None),
            timeout > 0 && encode_utf8(name@).len() > MAX_NAME_LENGTH ==> r == Err::<
                Option<Requester>,
                EncodeError,
            >(EncodeError::NameTooLong),
            timeout > 0 && encode_utf8(name@).len() <= MAX_NAME_LENGTH ==> (r matches Ok(Some(q))
                && q@ == (RequesterModel { color, name: name@, timeout, start: now, timer: now })),
    {
        if timeout == 0 {
            return Ok(None);
        }
        let packet = match RivPacket::new(color, name) {
            Ok(p) => p,
            Err(e) => return Err(e),
        };
        let request = packet.into_inner();
        Ok(Some(Requester { color, name: name.to_owned(), timeout, request, clock: Timer::new(now) }))
    }

    /// The bytes to send, again at each iteration.
    pub fn request(&self) -> (r: &Vec<u8>)
        ensures
            r@ == encoding(CODE_DISPLAY, self@.color, self@.name),
    {
        proof {
            use_type_invariant(self);
        }
        &self.request
    }

    /// The request goes on.
    pub fn pending(&self) -> (r: bool)
        ensures
            r == self@.pending(),
    {
        proof {
            use_type_invariant(self);
        }
        self.clock.timer - self.clock.start < self.timeout
    }

    /// No reply came within the iteration: returns how long to sleep before
    /// sending again.
    pub fn on_silence(&mut self, now: u64) -> (sleep: u64)
        ensures
            sleep == pause(old(self)@.timer, now, MIN_LOOP_MS),
            final(self)@ == (RequesterModel {
                timer: saturated(old(self)@.timer, MIN_LOOP_MS),
                ..old(self)@
            }),
    {
        proof {
            use_type_invariant(&*self);
        }
        let mut clock = self.clock;
        let sleep = clock.wait_if_too_fast(now, MIN_LOOP_MS);
        self.clock = clock;
        sleep
    }

    fn ignore(&mut self, now: u64) -> (r: Step)
        ensures
            r == Step::Retry(0),
            final(self)@ == (RequesterModel {
                timer: caught_up(old(self)@.timer, now, MIN_LOOP_MS),
                ..old(self)@
            }),
    {
        proof {
            use_type_invariant(&*self);
        }
        let mut clock = self.clock;
        clock.catch_up(now, MIN_LOOP_MS);
        self.clock = clock;
        Step::Retry(0)
    }

    /// A reply `data` came at `now`. One that bears on nothing is dropped
    /// without pacing and without restarting the timeout.
    pub fn on_reply(&mut self, data: &[u8], now: u64) -> (r: Step)
        ensures
            match reply_kind(data@, old(self)@.color, old(self)@.name) {
                ReplyKind::Ignore => r == Step::Retry(0) && final(self)@ == (RequesterModel {
                    timer: caught_up(old(self)@.timer, now, MIN_LOOP_MS),
                    ..old(self)@
                }),
                ReplyKind::Ack => {
                    let t = saturated(old(self)@.timer, MIN_LOOP_MS);
                    &&& r == Step::Retry(pause(old(self)@.timer, now, MIN_LOOP_MS))
                    &&& final(self)@ == (RequesterModel { start: t, timer: t, ..old(self)@ })
                },
                ReplyKind::Done(ok) => r == Step::Done(ok) && final(self)@ == old(self)@,
            },
    {
        proof {
            use_type_invariant(&*self);
        }
        let packet = match RivPacket::from(data) {
            Ok(p) => p,
            Err(_) => return self.ignore(now),
        };
        if packet.is_display() || packet.color() != self.color {
            return self.ignore(now);
        }
        let name = packet.name().to_owned();
        if name != self.name {
            return self.ignore(now);
        }
        if packet.is_ack() {
            let mut clock = self.clock;
            let sleep = clock.wait_if_too_fast(now, MIN_LOOP_MS);
            clock.reset();
            self.clock = clock;
            Step::Retry(sleep)
        } else {
            Step::Done(packet.is_ok())
        }
    }
}

} // verus!
