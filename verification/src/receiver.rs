//! Interrupt-driven pulse-width decoding, the freshness watchdog, and the
//! shared-state bridge between the interrupt context and the polling
//! consumer.
//!
//! The hardware surface is modeled by plain values behind a narrow
//! capability interface: a `TimeSource` stands for the free-running
//! microsecond timer, and each monitored input is a resettable counter
//! that accumulates while the line is high plus a latched pending flag
//! set on every falling edge. The `Receiver` holds the published widths,
//! the lock-protected timer/timestamp pair, the global handoff slot for
//! the handle bundle, and the interrupt context's private cache that the
//! bundle moves into exactly once, on the first interrupt service.

use vstd::prelude::*;

verus! {

/// Maximum tolerated gap between update-pulse edges, in milliseconds.
pub const WATCHDOG_TIMEOUT_MS: u64 = 100;

/// The time source counts microseconds: one millisecond is 1000 ticks.
pub const TICKS_PER_MS: u64 = 1000;

/// The free-running monotonic timer, counting microseconds since start.
#[derive(Clone, Copy, Debug)]
pub struct TimeSource {
    count: u64,
}

impl TimeSource {
    /// Current reading, for specifications.
    pub closed spec fn ticks(self) -> u64 {
        self.count
    }

    /// A timer that has just started counting.
    pub fn new() -> (r: TimeSource)
        ensures
            r.ticks() == 0,
    {
        TimeSource { count: 0 }
    }

    /// Let the timer run for `d` more microseconds.
    pub fn advance(&mut self, d: u64)
        requires
            old(self).ticks() + d <= u64::MAX,
        ensures
            final(self).ticks() == old(self).ticks() + d,
    {
        self.count = self.count + d;
    }

    /// Read the current counter value.
    pub fn now(&self) -> (r: u64)
        ensures
            r == self.ticks(),
    {
        self.count
    }
}

/// An input pin with its edge-capture counter: the counter accumulates
/// timer ticks while the line is high, and the pin latches a pending
/// interrupt flag on every falling edge.
struct PulseInput {
    count: u16,
    pending: bool,
}

/// The update-pulse pin: only its latched pending flag matters.
struct UpdatePin {
    pending: bool,
}

/// The bundle of hardware handles that moves, exactly once, from the
/// global slot into the interrupt context's private cache.
struct Globals {
    steering: PulseInput,
    throttle: PulseInput,
    update: UpdatePin,
}

/// The time source and the last recorded update-pulse timestamp, accessed
/// only under a critical section. Both are optional: before a time source
/// is installed, and before the first update-pulse edge is recorded, the
/// watchdog must report expiry.
struct TimerPair {
    timer: Option<TimeSource>,
    last_update: Option<u64>,
}

/// The decoder's whole state: published pulse widths, the timer pair, the
/// global handoff slot and the interrupt-local cache.
pub struct Receiver {
    steering: u16,
    throttle: u16,
    pair: TimerPair,
    slot: Option<Globals>,
    taken: Option<Globals>,
}

impl Receiver {
    /// Last published steering pulse width, in timer ticks.
    pub closed spec fn steering_width(self) -> u16 {
        self.steering
    }

    /// Last published throttle pulse width, in timer ticks.
    pub closed spec fn throttle_width(self) -> u16 {
        self.throttle
    }

    /// Whether a time source has been installed.
    pub closed spec fn timer_installed(self) -> bool {
        self.pair.timer is Some
    }

    /// The time source's current reading (zero while none is installed).
    pub closed spec fn now_ticks(self) -> u64 {
        match self.pair.timer {
            Some(t) => t.ticks(),
            None => 0,
        }
    }

    /// Whether an update-pulse edge has ever been recorded.
    pub closed spec fn update_recorded(self) -> bool {
        self.pair.last_update is Some
    }

    /// Timestamp of the last recorded update-pulse edge (zero while none
    /// has been recorded yet).
    pub closed spec fn last_update_ticks(self) -> u64 {
        match self.pair.last_update {
            Some(v) => v,
            None => 0,
        }
    }

    /// Whether the global handoff slot still holds the handle bundle.
    pub closed spec fn slot_full(self) -> bool {
        self.slot is Some
    }

    /// Whether the interrupt context has cached the handle bundle.
    pub closed spec fn handles_cached(self) -> bool {
        self.taken is Some
    }

    /// Whether the handle bundle exists anywhere (slot or cache).
    pub open spec fn has_handles(self) -> bool {
        self.slot_full() || self.handles_cached()
    }

    spec fn globals(self) -> Globals {
        match self.taken {
            Some(g) => g,
            None => match self.slot {
                Some(g) => g,
                None => arbitrary(),
            },
        }
    }

    /// Accumulated ticks of the steering channel's capture counter.
    pub closed spec fn steering_counter(self) -> u16 {
        self.globals().steering.count
    }

    /// Whether a steering falling edge is latched and unserviced.
    pub closed spec fn steering_pending(self) -> bool {
        self.globals().steering.pending
    }

    /// Accumulated ticks of the throttle channel's capture counter.
    pub closed spec fn throttle_counter(self) -> u16 {
        self.globals().throttle.count
    }

    /// Whether a throttle falling edge is latched and unserviced.
    pub closed spec fn throttle_pending(self) -> bool {
        self.globals().throttle.pending
    }

    /// Whether an update-pulse falling edge is latched and unserviced.
    pub closed spec fn update_pending(self) -> bool {
        self.globals().update.pending
    }

    /// Validity: a recorded timestamp never runs ahead of the timer, and
    /// the handle bundle is never in the slot and the cache at once.
    pub open spec fn wf(self) -> bool {
        &&& (self.timer_installed() && self.update_recorded() ==> self.last_update_ticks()
            <= self.now_ticks())
        &&& !(self.slot_full() && self.handles_cached())
    }

    /// The watchdog has expired: no time source yet, no update-pulse edge
    /// ever recorded, or more than the timeout has elapsed since the last
    /// recorded edge.
    pub open spec fn watchdog_expired(self) -> bool {
        ||| !self.timer_installed()
        ||| !self.update_recorded()
        ||| self.now_ticks() - self.last_update_ticks() > WATCHDOG_TIMEOUT_MS * TICKS_PER_MS
    }

    spec fn with_globals(self, g: Globals) -> Receiver {
        if self.taken is Some {
            Receiver {
                steering: self.steering,
                throttle: self.throttle,
                pair: self.pair,
                slot: self.slot,
                taken: Some(g),
            }
        } else if self.slot is Some {
            Receiver {
                steering: self.steering,
                throttle: self.throttle,
                pair: self.pair,
                slot: Some(g),
                taken: self.taken,
            }
        } else {
            self
        }
    }

    /// State after the steering line was high for `n` ticks and fell.
    pub closed spec fn spec_steering_edge(self, n: u16) -> Receiver {
        if self.has_handles() {
            let g = self.globals();
            self.with_globals(
                Globals {
                    steering: PulseInput { count: (g.steering.count + n) as u16, pending: true },
                    throttle: g.throttle,
                    update: g.update,
                },
            )
        } else {
            self
        }
    }

    /// State after the throttle line was high for `n` ticks and fell.
    pub closed spec fn spec_throttle_edge(self, n: u16) -> Receiver {
        if self.has_handles() {
            let g = self.globals();
            self.with_globals(
                Globals {
                    steering: g.steering,
                    throttle: PulseInput { count: (g.throttle.count + n) as u16, pending: true },
                    update: g.update,
                },
            )
        } else {
            self
        }
    }

    /// State after a falling edge on the update-pulse line.
    pub closed spec fn spec_update_edge(self) -> Receiver {
        if self.has_handles() {
            let g = self.globals();
            self.with_globals(
                Globals {
                    steering: g.steering,
                    throttle: g.throttle,
                    update: UpdatePin { pending: true },
                },
            )
        } else {
            self
        }
    }

    /// State after the time source has run for `d` more ticks.
    pub closed spec fn spec_advance(self, d: u64) -> Receiver {
        match self.pair.timer {
            Some(t) => Receiver {
                steering: self.steering,
                throttle: self.throttle,
                pair: TimerPair {
                    timer: Some(TimeSource { count: (t.ticks() + d) as u64 }),
                    last_update: self.pair.last_update,
                },
                slot: self.slot,
                taken: self.taken,
            },
            None => self,
        }
    }

    /// State after one interrupt service: the handle bundle is cached
    /// (taken from the slot if this is the first service), every pending
    /// channel's counter value is published and the counter reset, and a
    /// pending update pulse records the current time; all pending flags
    /// are acknowledged.
    pub closed spec fn spec_service(self) -> Receiver {
        if self.has_handles() {
            let g = self.globals();
            Receiver {
                steering: if g.steering.pending {
                    g.steering.count
                } else {
                    self.steering
                },
                throttle: if g.throttle.pending {
                    g.throttle.count
                } else {
                    self.throttle
                },
                pair: TimerPair {
                    timer: self.pair.timer,
                    last_update: if g.update.pending && self.pair.timer is Some {
                        Some(self.now_ticks())
                    } else {
                        self.pair.last_update
                    },
                },
                slot: None,
                taken: Some(
                    Globals {
                        steering: PulseInput {
                            count: if g.steering.pending {
                                0
                            } else {
                                g.steering.count
                            },
                            pending: false,
                        },
                        throttle: PulseInput {
                            count: if g.throttle.pending {
                                0
                            } else {
                                g.throttle.count
                            },
                            pending: false,
                        },
                        update: UpdatePin { pending: false },
                    },
                ),
            }
        } else {
            self
        }
    }

    /// The state the decoder is in before initialization: no widths, no
    /// time source, no recorded update edge, an empty handoff slot.
    pub fn new() -> (r: Receiver)
        ensures
            r.wf(),
            r.steering_width() == 0,
            r.throttle_width() == 0,
            !r.timer_installed(),
            !r.update_recorded(),
            !r.slot_full(),
            !r.handles_cached(),
    {
        Receiver {
            steering: 0,
            throttle: 0,
            pair: TimerPair { timer: None, last_update: None },
            slot: None,
            taken: None,
        }
    }

    /// Last measured steering pulse width, in timer ticks. Non-blocking;
    /// reads the slot the interrupt context publishes into.
    pub fn steering(&self) -> (r: u16)
        ensures
            r == self.steering_width(),
    {
        self.steering
    }

    /// Last measured throttle pulse width, in timer ticks. Non-blocking;
    /// reads the slot the interrupt context publishes into.
    pub fn throttle(&self) -> (r: u16)
        ensures
            r == self.throttle_width(),
    {
        self.throttle
    }

    /// Whether more than the watchdog timeout has elapsed since the last
    /// update-pulse edge (always expired while no time source is
    /// installed). Callable from any context; blocks only for the
    /// duration of one short critical section.
    pub fn has_watchdog_expired(&self) -> (r: bool)
        requires
            self.wf(),
        ensures
            r == self.watchdog_expired(),
    {
        self.watchdog_locked()
    }

    /// Relies on critical_section::with: it runs the query closure
    /// exactly once, with every other critical section excluded, and
    /// returns the closure's result.
    #[verifier::external_body]
    fn watchdog_locked(&self) -> (r: bool)
        requires
            self.wf(),
        ensures
            r == self.watchdog_expired(),
    {
        critical_section::with(|_cs| self.watchdog_inner())
    }

    fn watchdog_inner(&self) -> (r: bool)
        requires
            self.wf(),
        ensures
            r == self.watchdog_expired(),
    {
        match self.pair.timer {
            Some(t) => match self.pair.last_update {
                Some(last) => {
                    let current: u64 = t.now();
                    let delta: u64 = current - last;
                    delta_exceeds_timeout(delta)
                },
                None => true,
            },
            None => true,
        }
    }

    /// Let the installed time source run for `d` more microseconds. This
    /// is the hardware timer's free running, made explicit.
    pub fn advance_time(&mut self, d: u64)
        requires
            old(self).wf(),
            old(self).now_ticks() + d <= u64::MAX,
        ensures
            *final(self) == (*old(self)).spec_advance(d),
            final(self).wf(),
            final(self).timer_installed() == old(self).timer_installed(),
            old(self).timer_installed() ==> final(self).now_ticks() == old(self).now_ticks() + d,
            !old(self).timer_installed() ==> *final(self) == *old(self),
            final(self).steering_width() == old(self).steering_width(),
            final(self).throttle_width() == old(self).throttle_width(),
            final(self).update_recorded() == old(self).update_recorded(),
            final(self).last_update_ticks() == old(self).last_update_ticks(),
            final(self).slot_full() == old(self).slot_full(),
            final(self).handles_cached() == old(self).handles_cached(),
            final(self).steering_counter() == old(self).steering_counter(),
            final(self).steering_pending() == old(self).steering_pending(),
            final(self).throttle_counter() == old(self).throttle_counter(),
            final(self).throttle_pending() == old(self).throttle_pending(),
            final(self).update_pending() == old(self).update_pending(),
    {
        match self.pair.timer {
            Some(t) => {
                let mut advanced: TimeSource = t;
                advanced.advance(d);
                self.pair.timer = Some(advanced);
            },
            None => {},
        }
    }

    /// Bring the installed time source up to a hardware counter reading,
    /// never moving it backwards: a reading at or behind the current
    /// model time is ignored, since the hardware counter is monotonic.
    pub fn catch_up_time(&mut self, hw_now: u64)
        requires
            old(self).wf(),
        ensures
            final(self).wf(),
            final(self).timer_installed() == old(self).timer_installed(),
            old(self).timer_installed() ==> final(self).now_ticks() == (if hw_now > old(self).now_ticks() {
                hw_now
            } else {
                old(self).now_ticks()
            }),
            !old(self).timer_installed() ==> *final(self) == *old(self),
            final(self).steering_width() == old(self).steering_width(),
            final(self).throttle_width() == old(self).throttle_width(),
            final(self).update_recorded() == old(self).update_recorded(),
            final(self).last_update_ticks() == old(self).last_update_ticks(),
            final(self).slot_full() == old(self).slot_full(),
            final(self).handles_cached() == old(self).handles_cached(),
            final(self).steering_counter() == old(self).steering_counter(),
            final(self).steering_pending() == old(self).steering_pending(),
            final(self).throttle_counter() == old(self).throttle_counter(),
            final(self).throttle_pending() == old(self).throttle_pending(),
            final(self).update_pending() == old(self).update_pending(),
    {
        match self.pair.timer {
            Some(t) => {
                let current: u64 = t.now();
                if hw_now > current {
                    let mut advanced: TimeSource = t;
                    advanced.advance(hw_now - current);
                    self.pair.timer = Some(advanced);
                }
            },
            None => {},
        }
    }

    /// A falling edge on the steering input after its line was high for
    /// `high_ticks` ticks: the capture counter accumulates those ticks
    /// and the edge is latched until the next interrupt service.
    pub fn steering_edge(&mut self, high_ticks: u16)
        requires
            old(self).wf(),
            old(self).has_handles() ==> old(self).steering_counter() + high_ticks <= u16::MAX,
        ensures
            *final(self) == (*old(self)).spec_steering_edge(high_ticks),
            final(self).wf(),
            old(self).has_handles() ==> {
                &&& final(self).steering_counter() == old(self).steering_counter() + high_ticks
                &&& final(self).steering_pending()
            },
            !old(self).has_handles() ==> *final(self) == *old(self),
            final(self).steering_width() == old(self).steering_width(),
            final(self).throttle_width() == old(self).throttle_width(),
            final(self).throttle_counter() == old(self).throttle_counter(),
            final(self).throttle_pending() == old(self).throttle_pending(),
            final(self).update_pending() == old(self).update_pending(),
            final(self).timer_installed() == old(self).timer_installed(),
            final(self).now_ticks() == old(self).now_ticks(),
            final(self).update_recorded() == old(self).update_recorded(),
            final(self).last_update_ticks() == old(self).last_update_ticks(),
            final(self).slot_full() == old(self).slot_full(),
            final(self).handles_cached() == old(self).handles_cached(),
    {
        let cached = self.taken.take();
        match cached {
            Some(mut g) => {
                g.steering.count = g.steering.count + high_ticks;
                g.steering.pending = true;
                self.taken = Some(g);
            },
            None => {
                let slotted = self.slot.take();
                match slotted {
                    Some(mut g) => {
                        g.steering.count = g.steering.count + high_ticks;
                        g.steering.pending = true;
                        self.slot = Some(g);
                    },
                    None => {},
                }
            },
        }
    }

    /// A falling edge on the throttle input after its line was high for
    /// `high_ticks` ticks.
    pub fn throttle_edge(&mut self, high_ticks: u16)
        requires
            old(self).wf(),
            old(self).has_handles() ==> old(self).throttle_counter() + high_ticks <= u16::MAX,
        ensures
            *final(self) == (*old(self)).spec_throttle_edge(high_ticks),
            final(self).wf(),
            old(self).has_handles() ==> {
                &&& final(self).throttle_counter() == old(self).throttle_counter() + high_ticks
                &&& final(self).throttle_pending()
            },
            !old(self).has_handles() ==> *final(self) == *old(self),
            final(self).steering_width() == old(self).steering_width(),
            final(self).throttle_width() == old(self).throttle_width(),
            final(self).steering_counter() == old(self).steering_counter(),
            final(self).steering_pending() == old(self).steering_pending(),
            final(self).update_pending() == old(self).update_pending(),
            final(self).timer_installed() == old(self).timer_installed(),
            final(self).now_ticks() == old(self).now_ticks(),
            final(self).update_recorded() == old(self).update_recorded(),
            final(self).last_update_ticks() == old(self).last_update_ticks(),
            final(self).slot_full() == old(self).slot_full(),
            final(self).handles_cached() == old(self).handles_cached(),
    {
        let cached = self.taken.take();
        match cached {
            Some(mut g) => {
                g.throttle.count = g.throttle.count + high_ticks;
                g.throttle.pending = true;
                self.taken = Some(g);
            },
            None => {
                let slotted = self.slot.take();
                match slotted {
                    Some(mut g) => {
                        g.throttle.count = g.throttle.count + high_ticks;
                        g.throttle.pending = true;
                        self.slot = Some(g);
                    },
                    None => {},
                }
            },
        }
    }

    /// A falling edge on the update-pulse input: latched until the next
    /// interrupt service records its timestamp.
    pub fn update_edge(&mut self)
        requires
            old(self).wf(),
        ensures
            *final(self) == (*old(self)).spec_update_edge(),
            final(self).wf(),
            old(self).has_handles() ==> final(self).update_pending(),
            !old(self).has_handles() ==> *final(self) == *old(self),
            final(self).steering_width() == old(self).steering_width(),
            final(self).throttle_width() == old(self).throttle_width(),
            final(self).steering_counter() == old(self).steering_counter(),
            final(self).steering_pending() == old(self).steering_pending(),
            final(self).throttle_counter() == old(self).throttle_counter(),
            final(self).throttle_pending() == old(self).throttle_pending(),
            final(self).timer_installed() == old(self).timer_installed(),
            final(self).now_ticks() == old(self).now_ticks(),
            final(self).update_recorded() == old(self).update_recorded(),
            final(self).last_update_ticks() == old(self).last_update_ticks(),
            final(self).slot_full() == old(self).slot_full(),
            final(self).handles_cached() == old(self).handles_cached(),
    {
        let cached = self.taken.take();
        match cached {
            Some(mut g) => {
                g.update.pending = true;
                self.taken = Some(g);
            },
            None => {
                let slotted = self.slot.take();
                match slotted {
                    Some(mut g) => {
                        g.update.pending = true;
                        self.slot = Some(g);
                    },
                    None => {},
                }
            },
        }
    }

    /// One invocation of the edge interrupt handler. On the first
    /// invocation the handle bundle moves out of the global slot into the
    /// interrupt-local cache, and the slot stays empty forever after.
    /// Each pending channel's accumulated count is published as that
    /// channel's width, its counter is reset to zero, and its interrupt
    /// flag is acknowledged; a pending update pulse records the current
    /// time as the new last-update timestamp under the critical section.
    pub fn service_interrupt(&mut self)
        requires
            old(self).wf(),
        ensures
            *final(self) == (*old(self)).spec_service(),
            final(self).wf(),
            !final(self).slot_full(),
            old(self).has_handles() ==> {
                &&& final(self).handles_cached()
                &&& !final(self).steering_pending()
                &&& !final(self).throttle_pending()
                &&& !final(self).update_pending()
                &&& final(self).steering_width() == (if old(self).steering_pending() {
                    old(self).steering_counter()
                } else {
                    old(self).steering_width()
                })
                &&& final(self).throttle_width() == (if old(self).throttle_pending() {
                    old(self).throttle_counter()
                } else {
                    old(self).throttle_width()
                })
                &&& final(self).steering_counter() == (if old(self).steering_pending() {
                    0
                } else {
                    old(self).steering_counter()
                })
                &&& final(self).throttle_counter() == (if old(self).throttle_pending() {
                    0
                } else {
                    old(self).throttle_counter()
                })
                &&& (old(self).update_pending() && old(self).timer_installed() ==> {
                    &&& final(self).update_recorded()
                    &&& final(self).last_update_ticks() == old(self).now_ticks()
                })
                &&& (!(old(self).update_pending() && old(self).timer_installed()) ==> {
                    &&& final(self).update_recorded() == old(self).update_recorded()
                    &&& final(self).last_update_ticks() == old(self).last_update_ticks()
                })
                &&& final(self).timer_installed() == old(self).timer_installed()
                &&& final(self).now_ticks() == old(self).now_ticks()
            },
            !old(self).has_handles() ==> *final(self) == *old(self),
    {
        if self.taken.is_none() {
            self.take_handles_locked();
        }
        self.dispatch_pending();
    }

    /// Relies on critical_section::with: it runs the handoff closure
    /// exactly once, with every other critical section excluded, and
    /// returns after it completes.
    #[verifier::external_body]
    fn take_handles_locked(&mut self)
        requires
            old(self).taken is None,
        ensures
            final(self).taken == old(self).slot,
            final(self).slot is None,
            final(self).steering == old(self).steering,
            final(self).throttle == old(self).throttle,
            final(self).pair == old(self).pair,
    {
        critical_section::with(|_cs| self.take_handles_inner())
    }

    fn take_handles_inner(&mut self)
        requires
            old(self).taken is None,
        ensures
            final(self).taken == old(self).slot,
            final(self).slot is None,
            final(self).steering == old(self).steering,
            final(self).throttle == old(self).throttle,
            final(self).pair == old(self).pair,
    {
        let g = self.slot.take();
        self.taken = g;
    }

    fn dispatch_pending(&mut self)
        requires
            old(self).slot is None,
            old(self).pair.timer is Some && old(self).pair.last_update is Some
                ==> old(self).pair.last_update.unwrap() <= old(self).pair.timer.unwrap().ticks(),
        ensures
            final(self).slot is None,
            final(self).pair.timer == old(self).pair.timer,
            old(self).pair.timer is Some && final(self).pair.last_update is Some
                ==> final(self).pair.last_update.unwrap() <= final(self).pair.timer.unwrap().ticks(),
            old(self).taken is None ==> *final(self) == *old(self),
            old(self).taken is Some ==> {
                let g = old(self).globals();
                &&& final(self).taken == Some(
                    Globals {
                        steering: PulseInput {
                            count: if g.steering.pending {
                                0u16
                            } else {
                                g.steering.count
                            },
                            pending: false,
                        },
                        throttle: PulseInput {
                            count: if g.throttle.pending {
                                0u16
                            } else {
                                g.throttle.count
                            },
                            pending: false,
                        },
                        update: UpdatePin { pending: false },
                    },
                )
                &&& final(self).steering == (if g.steering.pending {
                    g.steering.count
                } else {
                    old(self).steering
                })
                &&& final(self).throttle == (if g.throttle.pending {
                    g.throttle.count
                } else {
                    old(self).throttle
                })
                &&& final(self).pair.last_update == (if g.update.pending
                    && old(self).pair.timer is Some {
                    Some(old(self).pair.timer.unwrap().ticks())
                } else {
                    old(self).pair.last_update
                })
            },
    {
        let cached = self.taken.take();
        match cached {
            Some(mut g) => {
                if g.steering.pending {
                    let count: u16 = g.steering.count;
                    g.steering.count = 0;
                    g.steering.pending = false;
                    self.steering = count;
                }
                if g.throttle.pending {
                    let count: u16 = g.throttle.count;
                    g.throttle.count = 0;
                    g.throttle.pending = false;
                    self.throttle = count;
                }
                if g.update.pending {
                    self.record_update_locked();
                    g.update.pending = false;
                }
                self.taken = Some(g);
            },
            None => {},
        }
    }

    /// Relies on critical_section::with: it runs the recording closure
    /// exactly once, with every other critical section excluded, and
    /// returns after it completes.
    #[verifier::external_body]
    fn record_update_locked(&mut self)
        ensures
            final(self).pair.timer == old(self).pair.timer,
            old(self).pair.timer is Some ==> final(self).pair.last_update
                == Some(old(self).pair.timer.unwrap().ticks()),
            old(self).pair.timer is None ==> final(self).pair.last_update
                == old(self).pair.last_update,
            final(self).steering == old(self).steering,
            final(self).throttle == old(self).throttle,
            final(self).slot == old(self).slot,
            final(self).taken == old(self).taken,
    {
        critical_section::with(|_cs| self.record_update_inner())
    }

    fn record_update_inner(&mut self)
        ensures
            final(self).pair.timer == old(self).pair.timer,
            old(self).pair.timer is Some ==> final(self).pair.last_update
                == Some(old(self).pair.timer.unwrap().ticks()),
            old(self).pair.timer is None ==> final(self).pair.last_update
                == old(self).pair.last_update,
            final(self).steering == old(self).steering,
            final(self).throttle == old(self).throttle,
            final(self).slot == old(self).slot,
            final(self).taken == old(self).taken,
    {
        match self.pair.timer {
            Some(t) => {
                self.pair.last_update = Some(t.now());
            },
            None => {},
        }
    }

    /// Whether the global handoff slot is empty; it starts full after
    /// initialization and empties, permanently, at the first interrupt
    /// service.
    pub fn global_slot_empty(&self) -> (r: bool)
        ensures
            r == !self.slot_full(),
    {
        self.slot.is_none()
    }
}

/// Relies on fugit's cross-unit Duration comparison: a microseconds
/// duration compared against a milliseconds duration is scaled exactly
/// (the millisecond count times 1000), so the comparison holds precisely
/// when the microsecond count exceeds the timeout in microseconds.
#[verifier::external_body]
fn delta_exceeds_timeout(delta_us: u64) -> (r: bool)
    ensures
        r == (delta_us > WATCHDOG_TIMEOUT_MS * TICKS_PER_MS),
{
    let delta = fugit::MicrosDurationU64::from_ticks(delta_us);
    delta > fugit::MillisDurationU64::millis(WATCHDOG_TIMEOUT_MS)
}

/// Configure the decoder: install the time source with no update edge
/// recorded yet, zero both published widths, and park the
/// freshly configured handle bundle (counters cleared, no edges latched)
/// in the global slot for the interrupt context to take.
pub fn initialize_receiver(timer: TimeSource) -> (r: Receiver)
    ensures
        r.wf(),
        r.steering_width() == 0,
        r.throttle_width() == 0,
        r.timer_installed(),
        r.now_ticks() == timer.ticks(),
        !r.update_recorded(),
        r.slot_full(),
        !r.handles_cached(),
        r.steering_counter() == 0,
        r.throttle_counter() == 0,
        !r.steering_pending(),
        !r.throttle_pending(),
        !r.update_pending(),
{
    Receiver {
        steering: 0,
        throttle: 0,
        pair: TimerPair { timer: Some(timer), last_update: None },
        slot: Some(
            Globals {
                steering: PulseInput { count: 0, pending: false },
                throttle: PulseInput { count: 0, pending: false },
                update: UpdatePin { pending: false },
            },
        ),
        taken: None,
    }
}

/// Law: starting from a freshly reset steering counter, an edge after `m`
/// high ticks publishes exactly `m` at the next interrupt service; after
/// a further edge of `n` ticks the previous value `m` stays visible until
/// that edge's own service publishes `n`.
pub proof fn law_steering_consecutive_edges(r: Receiver, m: u16, n: u16)
    requires
        r.wf(),
        r.has_handles(),
        r.steering_counter() == 0,
    ensures
        ({
            let s1 = r.spec_steering_edge(m).spec_service();
            let s2 = s1.spec_steering_edge(n);
            &&& s1.steering_width() == m
            &&& s2.steering_width() == m
            &&& s2.spec_service().steering_width() == n
        }),
{
}

/// Law: starting from a freshly reset throttle counter, an edge after `m`
/// high ticks publishes exactly `m` at the next interrupt service; after
/// a further edge of `n` ticks the previous value `m` stays visible until
/// that edge's own service publishes `n`.
pub proof fn law_throttle_consecutive_edges(r: Receiver, m: u16, n: u16)
    requires
        r.wf(),
        r.has_handles(),
        r.throttle_counter() == 0,
    ensures
        ({
            let s1 = r.spec_throttle_edge(m).spec_service();
            let s2 = s1.spec_throttle_edge(n);
            &&& s1.throttle_width() == m
            &&& s2.throttle_width() == m
            &&& s2.spec_service().throttle_width() == n
        }),
{
}

/// Law: once an update-pulse edge has been recorded at time `T`, the
/// watchdog reports no expiry for any query up to `T` plus the timeout,
/// and expiry for any query after that, as long as no further edge is
/// recorded.
pub proof fn law_watchdog_expiry_window(r: Receiver, d: u64)
    requires
        r.wf(),
        r.timer_installed(),
        r.has_handles(),
        r.update_pending(),
        r.now_ticks() + d <= u64::MAX,
    ensures
        ({
            let s = r.spec_service().spec_advance(d);
            &&& (d <= WATCHDOG_TIMEOUT_MS * TICKS_PER_MS ==> !s.watchdog_expired())
            &&& (d > WATCHDOG_TIMEOUT_MS * TICKS_PER_MS ==> s.watchdog_expired())
        }),
{
}

/// Law: before any update-pulse edge has ever been recorded — whether a
/// time source is installed but has never ticked, or none is installed
/// at all — the watchdog always reports expiry.
pub proof fn law_watchdog_expired_before_first_update(r: Receiver)
    requires
        !r.update_recorded() || !r.timer_installed(),
    ensures
        r.watchdog_expired(),
{
}

/// Law: the handle handoff happens exactly once. The first interrupt
/// service empties the global slot into the interrupt-local cache, and no
/// later service or input event ever refills the slot.
pub proof fn law_handoff_once(r: Receiver)
    requires
        r.wf(),
        r.slot_full(),
    ensures
        ({
            let s = r.spec_service();
            &&& !s.slot_full()
            &&& s.handles_cached()
            &&& !s.spec_service().slot_full()
            &&& s.spec_service().handles_cached()
            &&& !s.spec_update_edge().slot_full()
            &&& forall|n: u16| !(#[trigger] s.spec_steering_edge(n)).slot_full()
            &&& forall|n: u16| !(#[trigger] s.spec_throttle_edge(n)).slot_full()
        }),
{
}

} // verus!
