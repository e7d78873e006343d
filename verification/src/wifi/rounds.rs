//! What one pass of the Wi-Fi runner does, and in what order: drain what has
//! arrived, hand over one queued frame, see to the link sample, the
//! association and the counters, sleep.
//!
//! [`Rounds`] names one action at a time and is told what came of it. It
//! holds neither the queues nor the chip: what is to be done to the queues
//! is a [`QueueOp`], which comes before the action that goes with it.

use super::radio::{Error, PowerManagement, Reconnect, MTU};
use super::telemetry::{Link, LinkStats, RxStats, Telemetry, TxStats};
use super::watch::{
    self, join_budget, later, on_network, probe_interval, reachable, retry_interval, rx_silence,
    Association,
    Verdict, Watch,
};
use crate::ticks::{self, TICKS_PER_MILLI, TICK_HZ};
use vstd::prelude::*;

verus! {

/// Milliseconds the runner sleeps between passes.
pub const POLL_INTERVAL_MS: u64 = 1;

/// Frames drained from the chip in one pass before it moves on.
///
/// A bound rather than a target: an unbounded drain is how a broadcast storm
/// would hold the task forever.
pub const RX_BURST: usize = 8;

/// Seconds between two link samples.
pub const LINK_INTERVAL_SECS: u64 = 5;

/// Consecutive passes that must have moved nothing before a link sample is
/// taken.
///
/// Taking one is a control command, which on a busy link costs frames.
pub const LINK_QUIET_PASSES: u32 = 100;

/// [`POLL_INTERVAL_MS`] in ticks.
pub open spec fn poll_interval() -> int {
    POLL_INTERVAL_MS * TICKS_PER_MILLI
}

/// [`LINK_INTERVAL_SECS`] in ticks.
pub open spec fn link_interval() -> int {
    LINK_INTERVAL_SECS * TICK_HZ
}

/// What the runner needs done next.
#[derive(Clone, Copy, Debug, PartialEq, Eq)]
pub enum Action<'a> {
    /// See whether the stack's queue has room for a received frame.
    TakeSlot,
    /// Ask the chip for a received frame.
    Receive,
    /// See whether the stack has queued a frame to send.
    TakeFrame,
    /// Hand the chip the queued frame.
    Transmit,
    /// Read the clock.
    ReadClock,
    /// Ask the chip for the signal strength and the rate.
    ReadLink,
    /// Ask the chip which network it is on.
    Probe,
    /// Issue a join.
    Join(Reconnect<'a>),
    /// Set the power management.
    SetPowerManagement(PowerManagement),
    /// Ask the chip for its counters.
    ReadCounters,
    /// Sleep this many ticks.
    Sleep(u64),
}

/// What came of an [`Action`].
#[derive(Debug)]
pub enum Event<C> {
    /// Whether there is room for a received frame.
    Slot(bool),
    /// What the chip had: nothing, a frame of this length, or an error.
    Received(Result<Option<usize>, Error>),
    /// Whether there is a frame to send.
    Frame(bool),
    /// Whether the chip took the frame.
    Transmitted(Result<(), Error>),
    /// The clock.
    Clock(u64),
    /// What the chip said of the link.
    LinkRead {
        /// The signal strength in dBm.
        rssi_dbm: Result<i32, Error>,
        /// The rate in kbit/s.
        rate_kbps: Result<u32, Error>,
        /// The clock by now.
        now: u64,
    },
    /// Which network the chip said it is on.
    Probed {
        /// The network's address, if it is on one.
        bssid: Result<Option<[u8; 6]>, Error>,
        /// The clock by now.
        now: u64,
    },
    /// Whether the chip took the join.
    JoinIssued {
        /// The chip's answer.
        result: Result<(), Error>,
        /// The clock by now.
        now: u64,
    },
    /// The power management was set, or the chip refused, which costs
    /// latency on a link that works and is not worth giving up a network
    /// over.
    PowerManagementSet {
        /// The clock by now.
        now: u64,
    },
    /// What the chip answered to a request for its counters.
    CountersRead(Result<C, Error>),
    /// The sleep is over.
    Woke,
}

/// What is to be done to the stack's queues before the next action.
#[derive(Clone, Copy, Debug, PartialEq, Eq, Structural)]
pub enum QueueOp {
    /// Nothing.
    Keep,
    /// Hand the stack the received frame, of this length.
    HandUp(usize),
    /// Let go of the queued frame.
    Release,
    /// Tell the stack whether the link is up.
    Announce(bool),
}

/// The runner's state between two actions.
#[derive(Clone, Copy, Debug, PartialEq, Eq)]
pub struct Rounds<'a> {
    /// The watch on the association.
    pub watch: Watch<'a>,
    /// When the next link sample is due.
    pub link_due: u64,
    /// Consecutive passes that have moved nothing.
    pub quiet: u32,
    /// When a frame was last received.
    pub heard: u64,
    /// Frames handed up on this pass.
    pub burst: usize,
    /// Whether this pass has received anything.
    pub received: bool,
    /// Whether this pass found anything to send.
    pub sent: bool,
    /// What is being waited for.
    pub action: Action<'a>,
}

impl<C> Telemetry<C> {
    /// The report after a receive.
    pub open spec fn received(self, result: Result<Option<usize>, Error>) -> Telemetry<C> {
        match result {
            Ok(None) => self,
            Ok(Some(_)) => Telemetry {
                rx: RxStats { frames: self.rx.frames.wrapping_add(1), ..self.rx },
                ..self
            },
            Err(error) => Telemetry {
                rx: RxStats {
                    errors: self.rx.errors.wrapping_add(1),
                    last_error: Some(error),
                    ..self.rx
                },
                ..self
            },
        }
    }

    /// The report after a transmit.
    pub open spec fn transmitted(self, result: Result<(), Error>) -> Telemetry<C> {
        match result {
            Ok(()) => Telemetry {
                tx: TxStats { frames: self.tx.frames.wrapping_add(1), ..self.tx },
                ..self
            },
            Err(Error::TxBusy) => Telemetry {
                tx: TxStats { busy_passes: self.tx.busy_passes.wrapping_add(1), ..self.tx },
                ..self
            },
            Err(error) => Telemetry {
                tx: TxStats {
                    failures: self.tx.failures.wrapping_add(1),
                    last_error: Some(error),
                    ..self.tx
                },
                ..self
            },
        }
    }

    /// The report after a link sample. A failed read empties it, since a
    /// reading that has quietly stopped updating is worse than none.
    pub open spec fn sampled(
        self,
        rssi_dbm: Result<i32, Error>,
        rate_kbps: Result<u32, Error>,
    ) -> Telemetry<C> {
        Telemetry {
            link: match (rssi_dbm, rate_kbps) {
                (Ok(rssi_dbm), Ok(rate_kbps)) => Some(Link { rssi_dbm, rate_kbps }),
                _ => None,
            },
            ..self
        }
    }

    /// The report once the association is found gone. The last sample
    /// described a link that no longer exists.
    pub open spec fn dropped(self) -> Telemetry<C> {
        Telemetry {
            associated: false,
            link: None,
            link_stats: LinkStats {
                drops: self.link_stats.drops.wrapping_add(1),
                ..self.link_stats
            },
            ..self
        }
    }

    /// The report once a join is about to be issued.
    pub open spec fn joining(self) -> Telemetry<C> {
        Telemetry {
            link_stats: LinkStats {
                joins: self.link_stats.joins.wrapping_add(1),
                ..self.link_stats
            },
            ..self
        }
    }

    /// The report while the chip is on a network.
    pub open spec fn on_network(self) -> Telemetry<C> {
        Telemetry { associated: true, ..self }
    }

    /// The report once another pass has begun.
    pub open spec fn another_pass(self) -> Telemetry<C> {
        Telemetry { passes: self.passes.wrapping_add(1), ..self }
    }

    /// Counts a receive.
    fn note_received(&mut self, result: Result<Option<usize>, Error>)
        ensures
            *final(self) == old(self).received(result),
    {
        match result {
            Ok(None) => {},
            Ok(Some(_)) => {
                self.rx.frames = self.rx.frames.wrapping_add(1);
            },
            Err(error) => {
                self.rx.errors = self.rx.errors.wrapping_add(1);
                self.rx.last_error = Some(error);
            },
        }
    }

    /// Counts a transmit.
    fn note_transmitted(&mut self, result: Result<(), Error>)
        ensures
            *final(self) == old(self).transmitted(result),
    {
        match result {
            Ok(()) => {
                self.tx.frames = self.tx.frames.wrapping_add(1);
            },
            Err(Error::TxBusy) => {
                self.tx.busy_passes = self.tx.busy_passes.wrapping_add(1);
            },
            Err(error) => {
                self.tx.failures = self.tx.failures.wrapping_add(1);
                self.tx.last_error = Some(error);
            },
        }
    }

    /// Counts a lost association.
    fn note_drop(&mut self)
        ensures
            *final(self) == old(self).dropped(),
    {
        self.link_stats.drops = self.link_stats.drops.wrapping_add(1);
        self.associated = false;
        self.link = None;
    }

    /// Counts a join.
    fn note_join(&mut self)
        ensures
            *final(self) == old(self).joining(),
    {
        self.link_stats.joins = self.link_stats.joins.wrapping_add(1);
    }
}

impl<'a> Rounds<'a> {
    /// The rounds at the beginning of a pass.
    pub open spec fn begun(self) -> Rounds<'a> {
        Rounds { burst: 0, received: false, sent: false, action: Action::TakeSlot, ..self }
    }

    /// The rounds of a runner that starts at `now`, at the beginning of its
    /// first pass.
    pub open spec fn starting(reconnect: Option<Reconnect<'a>>, now: u64) -> Rounds<'a> {
        Rounds {
            watch: Watch {
                reconnect,
                state: Association::Up,
                due: later(now, probe_interval()),
            },
            link_due: now,
            quiet: 0,
            heard: now,
            burst: 0,
            received: false,
            sent: false,
            action: Action::TakeSlot,
        }
    }

    /// The rounds with something else to be done next.
    pub open spec fn then_do(self, action: Action<'a>) -> Rounds<'a> {
        Rounds { action, ..self }
    }

    /// Once the chip has answered a receive: on to the next frame after one
    /// that arrived, up to the bound, and to the transmit half otherwise.
    pub open spec fn after_receive(self, result: Result<Option<usize>, Error>) -> Rounds<'a> {
        match result {
            Ok(None) => self.then_do(Action::TakeFrame),
            Ok(Some(_)) => Rounds {
                burst: (self.burst + 1) as usize,
                received: true,
                action: if self.burst + 1 < RX_BURST {
                    Action::TakeSlot
                } else {
                    Action::TakeFrame
                },
                ..self
            },
            Err(_) => Rounds { received: true, action: Action::TakeFrame, ..self },
        }
    }

    /// Consecutive passes without traffic, this one counted.
    pub open spec fn quiet_passes(self) -> u32 {
        if self.received || self.sent {
            0
        } else if self.quiet < u32::MAX {
            (self.quiet + 1) as u32
        } else {
            self.quiet
        }
    }

    /// Whether a link sample is taken at `now`: on an idle radio, and no
    /// more often than every [`LINK_INTERVAL_SECS`].
    pub open spec fn samples(self, now: u64) -> bool {
        self.quiet_passes() >= LINK_QUIET_PASSES && now >= self.link_due
    }

    /// The rounds once this pass's traffic is accounted for at `now`.
    pub open spec fn settled(self, now: u64) -> Rounds<'a> {
        Rounds {
            heard: if self.received {
                now
            } else {
                self.heard
            },
            quiet: self.quiet_passes(),
            ..self
        }
    }

    /// On to the association.
    pub open spec fn watching<C>(self, telemetry: Telemetry<C>, now: u64) -> (
        Rounds<'a>,
        Telemetry<C>,
    ) {
        let watched = Rounds { watch: self.watch.passed(now, self.heard), ..self };
        if self.watch.asks(now, self.heard) {
            (watched.then_do(Action::Probe), telemetry)
        } else {
            watched.counting(telemetry)
        }
    }

    /// On to the counters: read if a reading has been asked for.
    pub open spec fn counting<C>(self, telemetry: Telemetry<C>) -> (Rounds<'a>, Telemetry<C>) {
        if telemetry.counters_wanted {
            (
                self.then_do(Action::ReadCounters),
                Telemetry { counters_wanted: false, ..telemetry },
            )
        } else {
            (self.then_do(Action::Sleep(poll_interval() as u64)), telemetry)
        }
    }

    /// What holds between any two actions: the drain keeps to its bound, a
    /// frame under way counts as something to send, and the chip is only told to join, or has its power management put back,
    /// off the network and with what the runner was given.
    pub open spec fn wf(self) -> bool {
        &&& self.burst <= RX_BURST
        &&& self.action is TakeSlot || self.action is Receive ==> self.burst < RX_BURST
        &&& self.action is Transmit ==> self.sent
        &&& self.action matches Action::Join(reconnect) ==> self.watch.reconnect == Some(
            reconnect,
        ) && self.watch.state is Down
        &&& self.action matches Action::SetPowerManagement(mode) ==> {
            &&& self.watch.reconnect matches Some(reconnect)
            &&& reconnect.power_management == mode
            &&& !(self.watch.state is Up)
        }
    }

    /// How many more events this pass can take, at most, the end of the
    /// sleep counted.
    pub open spec fn remaining(self) -> int {
        match self.action {
            Action::TakeSlot => 8 + 2 * (RX_BURST - self.burst),
            Action::Receive => 7 + 2 * (RX_BURST - self.burst),
            Action::TakeFrame => 8,
            Action::Transmit => 7,
            Action::ReadClock => 6,
            Action::ReadLink => 5,
            Action::Probe => 4,
            Action::Join(_) | Action::SetPowerManagement(_) => 3,
            Action::ReadCounters => 2,
            Action::Sleep(_) => 1,
        }
    }

    /// Whether `event` answers what is being waited for, at an instant that
    /// can be reckoned from.
    pub open spec fn expects<C>(self, event: Event<C>) -> bool {
        match (self.action, event) {
            (Action::TakeSlot, Event::Slot(_)) => true,
            (Action::Receive, Event::Received(result)) => result matches Ok(Some(len)) ==> len
                <= MTU,
            (Action::TakeFrame, Event::Frame(_)) => true,
            (Action::Transmit, Event::Transmitted(_)) => true,
            (Action::ReadClock, Event::Clock(now)) => if self.samples(now) {
                reachable(now, link_interval())
            } else {
                self.watch.pass_reachable(now, self.settled(now).heard)
            },
            (Action::ReadLink, Event::LinkRead { now, .. }) => self.watch.pass_reachable(
                now,
                self.heard,
            ),
            (Action::Probe, Event::Probed { bssid, now }) => self.watch.probed_delay(
                on_network(bssid),
                now,
            ) matches Some(delay) ==> reachable(now, delay),
            (Action::Join(_), Event::JoinIssued { result, now }) => if result is Ok {
                reachable(now, join_budget())
            } else {
                reachable(now, retry_interval())
            },
            (Action::SetPowerManagement(_), Event::PowerManagementSet { now }) => reachable(
                now,
                probe_interval(),
            ),
            (Action::ReadCounters, Event::CountersRead(_)) => true,
            (Action::Sleep(_), Event::Woke) => true,
            (_, _) => false,
        }
    }

    /// What `event` leads to: the rounds, the report, and what is to be done
    /// to the queues.
    pub open spec fn following<C>(self, telemetry: Telemetry<C>, event: Event<C>) -> (
        Rounds<'a>,
        Telemetry<C>,
        QueueOp,
    ) {
        match event {
            Event::Slot(free) => (
                self.then_do(
                    if free {
                        Action::Receive
                    } else {
                        Action::TakeFrame
                    },
                ),
                telemetry,
                QueueOp::Keep,
            ),
            Event::Received(result) => (
                self.after_receive(result),
                telemetry.received(result),
                match result {
                    Ok(Some(len)) => QueueOp::HandUp(len),
                    _ => QueueOp::Keep,
                },
            ),
            Event::Frame(queued) => (
                Rounds {
                    sent: queued,
                    action: if queued {
                        Action::Transmit
                    } else {
                        Action::ReadClock
                    },
                    ..self
                },
                telemetry,
                QueueOp::Keep,
            ),
            Event::Transmitted(result) => (
                self.then_do(Action::ReadClock),
                telemetry.transmitted(result),
                if result == Err::<(), Error>(Error::TxBusy) {
                    QueueOp::Keep
                } else {
                    QueueOp::Release
                },
            ),
            Event::Clock(now) => {
                let settled = self.settled(now);
                let (rounds, telemetry) = if self.samples(now) {
                    (
                        Rounds {
                            link_due: later(now, link_interval()),
                            action: Action::ReadLink,
                            ..settled
                        },
                        telemetry,
                    )
                } else {
                    settled.watching(telemetry, now)
                };
                (rounds, telemetry, QueueOp::Keep)
            },
            Event::LinkRead { rssi_dbm, rate_kbps, now } => {
                let (rounds, telemetry) = self.watching(
                    telemetry.sampled(rssi_dbm, rate_kbps),
                    now,
                );
                (rounds, telemetry, QueueOp::Keep)
            },
            Event::Probed { bssid, now } => {
                let answer = on_network(bssid);
                self.following_verdict(telemetry, self.watch.verdict(answer), answer, now)
            },
            Event::JoinIssued { result, now } => {
                let (rounds, telemetry) = Rounds {
                    watch: self.watch.join_issued_to(result is Ok, now),
                    ..self
                }.counting(telemetry);
                (rounds, telemetry, QueueOp::Keep)
            },
            Event::PowerManagementSet { now } => {
                let (rounds, telemetry) = Rounds {
                    watch: self.watch.associated_at(now),
                    ..self
                }.counting(telemetry.on_network());
                (rounds, telemetry, QueueOp::Announce(true))
            },
            Event::CountersRead(result) => (
                self.then_do(Action::Sleep(poll_interval() as u64)),
                Telemetry { counters: Some(result), ..telemetry },
                QueueOp::Keep,
            ),
            Event::Woke => (self.begun(), telemetry.another_pass(), QueueOp::Keep),
        }
    }

    /// What the answer to a probe leads to.
    pub open spec fn following_verdict<C>(
        self,
        telemetry: Telemetry<C>,
        verdict: Verdict<'a>,
        answer: bool,
        now: u64,
    ) -> (Rounds<'a>, Telemetry<C>, QueueOp) {
        let probed = Rounds { watch: self.watch.probed_to(answer, now), ..self };
        match verdict {
            Verdict::Unchanged => {
                let (rounds, telemetry) = probed.counting(telemetry);
                (rounds, telemetry, QueueOp::Keep)
            },
            Verdict::Lost(Some(reconnect)) => (
                probed.then_do(Action::Join(reconnect)),
                telemetry.dropped().joining(),
                QueueOp::Announce(false),
            ),
            Verdict::Lost(None) => {
                let (rounds, telemetry) = probed.counting(telemetry.dropped());
                (rounds, telemetry, QueueOp::Announce(false))
            },
            Verdict::Join(reconnect) => (
                probed.then_do(Action::Join(reconnect)),
                telemetry.joining(),
                QueueOp::Keep,
            ),
            Verdict::Restore(mode) => (
                probed.then_do(Action::SetPowerManagement(mode)),
                telemetry,
                QueueOp::Keep,
            ),
            Verdict::Associated => {
                let (rounds, telemetry) = probed.counting(telemetry.on_network());
                (rounds, telemetry, QueueOp::Announce(true))
            },
        }
    }

    /// Starts a runner on a chip that has joined a network. The link is
    /// taken as up rather than probed for, and the queues are told so.
    pub fn start<C>(
        reconnect: Option<Reconnect<'a>>,
        now: u64,
        telemetry: &mut Telemetry<C>,
    ) -> (started: (Rounds<'a>, QueueOp))
        requires
            reachable(now, probe_interval()),
        ensures
            started.0.wf(),
            started.0 == Rounds::<'a>::starting(reconnect, now),
            started.1 == QueueOp::Announce(true),
            *final(telemetry) == old(telemetry).on_network().another_pass(),
    {
        telemetry.associated = true;
        telemetry.passes = telemetry.passes.wrapping_add(1);
        let rounds = Rounds {
            watch: Watch::new(reconnect, now),
            link_due: now,
            quiet: 0,
            heard: now,
            burst: 0,
            received: false,
            sent: false,
            action: Action::TakeSlot,
        };
        (rounds, QueueOp::Announce(true))
    }

    /// Takes what came of the last action. What follows stands in
    /// [`action`](Self::action), once the answer has been done to the
    /// queues.
    pub fn step<C>(&mut self, telemetry: &mut Telemetry<C>, event: Event<C>) -> (op: QueueOp)
        requires
            old(self).wf(),
            old(self).expects(event),
        ensures
            final(self).wf(),
            (*final(self), *final(telemetry), op) == old(self).following(*old(telemetry), event),
    {
        match event {
            Event::Slot(free) => {
                self.action = if free {
                    Action::Receive
                } else {
                    Action::TakeFrame
                };
                QueueOp::Keep
            },
            Event::Received(result) => {
                telemetry.note_received(result);
                self.receive(result)
            },
            Event::Frame(queued) => {
                self.sent = queued;
                self.action = if queued {
                    Action::Transmit
                } else {
                    Action::ReadClock
                };
                QueueOp::Keep
            },
            Event::Transmitted(result) => {
                telemetry.note_transmitted(result);
                self.action = Action::ReadClock;
                match result {
                    Err(Error::TxBusy) => QueueOp::Keep,
                    _ => QueueOp::Release,
                }
            },
            Event::Clock(now) => {
                self.clock(telemetry, now);
                QueueOp::Keep
            },
            Event::LinkRead { rssi_dbm, rate_kbps, now } => {
                telemetry.link = match (rssi_dbm, rate_kbps) {
                    (Ok(rssi_dbm), Ok(rate_kbps)) => Some(Link { rssi_dbm, rate_kbps }),
                    _ => None,
                };
                self.watch_pass(telemetry, now);
                QueueOp::Keep
            },
            Event::Probed { bssid, now } => self.probed(telemetry, watch::probe(bssid), now),
            Event::JoinIssued { result, now } => {
                self.watch.join_issued(result.is_ok(), now);
                self.count(telemetry);
                QueueOp::Keep
            },
            Event::PowerManagementSet { now } => {
                telemetry.associated = true;
                self.watch.associate(now);
                self.count(telemetry);
                QueueOp::Announce(true)
            },
            Event::CountersRead(result) => {
                telemetry.counters = Some(result);
                self.action = Action::Sleep(ticks::from_millis(POLL_INTERVAL_MS));
                QueueOp::Keep
            },
            Event::Woke => {
                telemetry.passes = telemetry.passes.wrapping_add(1);
                self.burst = 0;
                self.received = false;
                self.sent = false;
                self.action = Action::TakeSlot;
                QueueOp::Keep
            },
        }
    }

    /// Takes what the chip had.
    fn receive(&mut self, result: Result<Option<usize>, Error>) -> (op: QueueOp)
        requires
            old(self).burst < RX_BURST,
        ensures
            *final(self) == old(self).after_receive(result),
            op == match result {
                Ok(Some(len)) => QueueOp::HandUp(len),
                _ => QueueOp::Keep,
            },
    {
        match result {
            // Nothing waiting, or a control frame the chip consumed: either
            // way there is no frame for the stack.
            Ok(None) => {
                self.action = Action::TakeFrame;
                QueueOp::Keep
            },
            Ok(Some(len)) => {
                self.burst = self.burst + 1;
                self.received = true;
                self.action = if self.burst < RX_BURST {
                    Action::TakeSlot
                } else {
                    Action::TakeFrame
                };
                QueueOp::HandUp(len)
            },
            // A frame arrived, even though nothing came of it: the radio is
            // busy.
            Err(_) => {
                self.received = true;
                self.action = Action::TakeFrame;
                QueueOp::Keep
            },
        }
    }

    /// Accounts for the pass's traffic, and sees whether a link sample is
    /// due.
    fn clock<C>(&mut self, telemetry: &mut Telemetry<C>, now: u64)
        requires
            old(self).action is ReadClock,
            old(self).expects(Event::<C>::Clock(now)),
        ensures
            (*final(self), *final(telemetry), QueueOp::Keep) == old(self).following(
                *old(telemetry),
                Event::Clock(now),
            ),
    {
        if self.received {
            self.heard = now;
        }
        self.quiet = if self.received || self.sent {
            0
        } else {
            self.quiet.saturating_add(1)
        };
        if self.quiet >= LINK_QUIET_PASSES && now >= self.link_due {
            self.link_due = ticks::after(now, ticks::from_secs(LINK_INTERVAL_SECS));
            self.action = Action::ReadLink;
        } else {
            self.watch_pass(telemetry, now);
        }
    }

    /// Sees whether the association is to be probed.
    fn watch_pass<C>(&mut self, telemetry: &mut Telemetry<C>, now: u64)
        requires
            old(self).watch.pass_reachable(now, old(self).heard),
        ensures
            (*final(self), *final(telemetry)) == old(self).watching(*old(telemetry), now),
    {
        if self.watch.pass(now, self.heard) {
            self.action = Action::Probe;
        } else {
            self.count(telemetry);
        }
    }

    /// Sees whether the counters are to be read, and sleeps otherwise.
    fn count<C>(&mut self, telemetry: &mut Telemetry<C>)
        ensures
            (*final(self), *final(telemetry)) == old(self).counting(*old(telemetry)),
    {
        if telemetry.counters_wanted {
            telemetry.counters_wanted = false;
            self.action = Action::ReadCounters;
        } else {
            self.action = Action::Sleep(ticks::from_millis(POLL_INTERVAL_MS));
        }
    }

    /// Takes the answer to a probe.
    fn probed<C>(&mut self, telemetry: &mut Telemetry<C>, answer: bool, now: u64) -> (op: QueueOp)
        requires
            old(self).watch.probed_delay(answer, now) matches Some(delay) ==> reachable(
                now,
                delay,
            ),
        ensures
            (*final(self), *final(telemetry), op) == old(self).following_verdict(
                *old(telemetry),
                old(self).watch.verdict(answer),
                answer,
                now,
            ),
    {
        match self.watch.probed(answer, now) {
            Verdict::Unchanged => {
                self.count(telemetry);
                QueueOp::Keep
            },
            Verdict::Lost(rejoin) => {
                telemetry.note_drop();
                match rejoin {
                    Some(reconnect) => {
                        telemetry.note_join();
                        self.action = Action::Join(reconnect);
                    },
                    None => {
                        self.count(telemetry);
                    },
                }
                QueueOp::Announce(false)
            },
            Verdict::Join(reconnect) => {
                telemetry.note_join();
                self.action = Action::Join(reconnect);
                QueueOp::Keep
            },
            Verdict::Restore(mode) => {
                self.action = Action::SetPowerManagement(mode);
                QueueOp::Keep
            },
            Verdict::Associated => {
                telemetry.associated = true;
                self.count(telemetry);
                QueueOp::Announce(true)
            },
        }
    }
}

/// The report, the watch and what the stack has been told always agree:
/// where the report says whether the watch is on a network it goes on doing
/// so, and the stack is told of every change and of nothing else.
pub proof fn law_stack_hears_of_every_change<'a, C>(
    rounds: Rounds<'a>,
    telemetry: Telemetry<C>,
    event: Event<C>,
)
    requires
        rounds.wf(),
        rounds.expects(event),
        telemetry.associated == rounds.watch.state is Up,
    ensures
        ({
            let (next, report, op) = rounds.following(telemetry, event);
            &&& report.associated == next.watch.state is Up
            &&& op matches QueueOp::Announce(up) ==> up == next.watch.state is Up
            &&& op is Announce <==> report.associated != telemetry.associated
        }),
{
}

/// A transmit refused for want of credit leaves the frame where it is and
/// counts as nothing but a busy pass. Any other outcome lets the frame go.
pub proof fn law_refused_frame_stays_queued<'a, C>(
    rounds: Rounds<'a>,
    telemetry: Telemetry<C>,
    result: Result<(), Error>,
)
    ensures
        ({
            let (next, report, op) = rounds.following(telemetry, Event::Transmitted(result));
            let refused = result == Err::<(), Error>(Error::TxBusy);
            &&& op == if refused {
                QueueOp::Keep
            } else {
                QueueOp::Release
            }
            &&& refused ==> report == Telemetry {
                tx: TxStats {
                    busy_passes: telemetry.tx.busy_passes.wrapping_add(1),
                    ..telemetry.tx
                },
                ..telemetry
            }
            &&& next.action is ReadClock
        }),
{
}

/// Frames leave the queue in no other way than by being handed to the chip.
pub proof fn law_only_a_transmit_releases<'a, C>(
    rounds: Rounds<'a>,
    telemetry: Telemetry<C>,
    event: Event<C>,
)
    requires
        rounds.expects(event),
    ensures
        rounds.following(telemetry, event).2 is Release ==> rounds.action is Transmit,
        rounds.following(telemetry, event).2 is HandUp ==> rounds.action is Receive,
{
}

/// Receiving comes first, and both halves run on every pass: the receive
/// half only ever leads on to the transmit half, and that only to the rest
/// of the pass.
pub proof fn law_receive_then_transmit<'a, C>(
    rounds: Rounds<'a>,
    telemetry: Telemetry<C>,
    event: Event<C>,
)
    requires
        rounds.wf(),
        rounds.expects(event),
    ensures
        ({
            let next = rounds.following(telemetry, event).0.action;
            match rounds.action {
                Action::TakeSlot | Action::Receive => next is TakeSlot || next is Receive
                    || next is TakeFrame,
                Action::TakeFrame | Action::Transmit => next is Transmit || next is ReadClock,
                Action::Sleep(_) => next is TakeSlot,
                _ => !(next is TakeSlot || next is Receive || next is TakeFrame
                    || next is Transmit),
            }
        }),
{
}

/// The work of a pass is bounded: each event brings its end nearer, and from
/// the beginning there are at most two for each frame of the burst and eight
/// more.
pub proof fn law_pass_is_bounded<'a, C>(
    rounds: Rounds<'a>,
    telemetry: Telemetry<C>,
    event: Event<C>,
)
    requires
        rounds.wf(),
        rounds.expects(event),
    ensures
        rounds.remaining() > 0,
        !(event is Woke) ==> rounds.following(telemetry, event).0.remaining() < rounds.remaining(),
        event is Woke ==> rounds.following(telemetry, event).0.remaining() == 2 * RX_BURST + 8,
{
}

/// At most [`RX_BURST`] frames are handed up on a pass, every one of them
/// counted, and no other event counts one.
pub proof fn law_burst_is_bounded<'a, C>(
    rounds: Rounds<'a>,
    telemetry: Telemetry<C>,
    event: Event<C>,
)
    requires
        rounds.wf(),
        rounds.expects(event),
    ensures
        ({
            let (next, report, op) = rounds.following(telemetry, event);
            &&& next.burst <= RX_BURST
            &&& op is HandUp ==> next.burst == rounds.burst + 1
            &&& op is HandUp ==> report.rx.frames == telemetry.rx.frames.wrapping_add(1)
            &&& !(op is HandUp) ==> report.rx.frames == telemetry.rx.frames
            &&& !(op is HandUp) ==> next.burst == if event is Woke {
                0
            } else {
                rounds.burst
            }
        }),
{
}

/// A pass that has received anything does not probe a link that is up.
pub proof fn law_receiving_keeps_probes_away<'a, C>(
    rounds: Rounds<'a>,
    telemetry: Telemetry<C>,
    now: u64,
)
    requires
        rounds.received,
        rounds.watch.state is Up,
    ensures
        !(rounds.following(telemetry, Event::Clock(now)).0.action is Probe),
{
}

/// While the link is up, when the next probe is due moves only when one is
/// sent, and by [`super::watch::PROBE_INTERVAL_SECS`] from that instant.
pub proof fn law_probe_pace_is_kept<'a, C>(
    rounds: Rounds<'a>,
    telemetry: Telemetry<C>,
    event: Event<C>,
)
    requires
        rounds.wf(),
        rounds.expects(event),
        rounds.watch.state is Up,
    ensures
        ({
            let next = rounds.following(telemetry, event).0;
            next.watch.state is Up && next.watch.due != rounds.watch.due ==> {
                &&& next.action is Probe
                &&& event matches Event::Clock(now) ==> next.watch.due == now + probe_interval()
                &&& event matches Event::LinkRead { now, .. } ==> next.watch.due == now
                    + probe_interval()
                &&& event is Clock || event is LinkRead
            }
        }),
{
}

/// A reading [`super::telemetry::request_counters`] asked for is taken
/// before the pass ends, nothing but a reading fills the slot it cleared,
/// and no reading is taken that was not asked for.
pub proof fn law_counters_are_read_on_request<'a, C>(
    rounds: Rounds<'a>,
    telemetry: Telemetry<C>,
    event: Event<C>,
)
    requires
        rounds.wf(),
        rounds.expects(event),
    ensures
        ({
            let (next, report, _) = rounds.following(telemetry, event);
            &&& !(event is CountersRead) ==> report.counters == telemetry.counters
            &&& event is CountersRead ==> report.counters is Some
            &&& next.action is Sleep && !(event is CountersRead) ==> !telemetry.counters_wanted
            &&& next.action is ReadCounters ==> telemetry.counters_wanted
                && !report.counters_wanted
        }),
{
}

/// A runner that was given nothing to rejoin with issues no joins and counts
/// none, and stays that way.
pub proof fn law_no_credentials_no_joins<'a, C>(
    rounds: Rounds<'a>,
    telemetry: Telemetry<C>,
    event: Event<C>,
)
    requires
        rounds.wf(),
        rounds.expects(event),
        rounds.watch.reconnect is None,
    ensures
        ({
            let (next, report, _) = rounds.following(telemetry, event);
            &&& next.watch.reconnect is None
            &&& !(next.action is Join)
            &&& report.link_stats.joins == telemetry.link_stats.joins
        }),
{
}

/// With credentials, the power management is put back before the stack is
/// told that the link is up again.
pub proof fn law_power_management_comes_back_first<'a, C>(
    rounds: Rounds<'a>,
    telemetry: Telemetry<C>,
    event: Event<C>,
)
    requires
        rounds.wf(),
        rounds.expects(event),
        rounds.following(telemetry, event).2 == QueueOp::Announce(true),
    ensures
        rounds.watch.reconnect matches Some(reconnect) ==> rounds.action
            == Action::SetPowerManagement(reconnect.power_management),
{
}

/// A link sample never describes a link that is gone or a chip that has
/// stopped answering: losing the association empties it, and so does a
/// failed read. Only a read of both figures fills it, and that takes an idle
/// radio.
pub proof fn law_link_sample_is_current<'a, C>(
    rounds: Rounds<'a>,
    telemetry: Telemetry<C>,
    event: Event<C>,
)
    requires
        rounds.wf(),
        rounds.expects(event),
    ensures
        ({
            let (next, report, op) = rounds.following(telemetry, event);
            &&& op == QueueOp::Announce(false) ==> report.link is None
            &&& event matches Event::LinkRead { rssi_dbm, rate_kbps, .. } ==> report.link
                == if rssi_dbm is Ok && rate_kbps is Ok {
                Some(Link { rssi_dbm: rssi_dbm->Ok_0, rate_kbps: rate_kbps->Ok_0 })
            } else {
                None
            }
            &&& !(event is LinkRead) && op != QueueOp::Announce(false) ==> report.link
                == telemetry.link
            &&& next.action is ReadLink ==> next.quiet >= LINK_QUIET_PASSES && !rounds.received
                && !rounds.sent
        }),
{
}

impl<C> Event<C> {
    /// The clock reading that came with this, if one did.
    pub open spec fn reading(self) -> Option<u64> {
        match self {
            Event::Clock(now) => Some(now),
            Event::LinkRead { now, .. } => Some(now),
            Event::Probed { now, .. } => Some(now),
            Event::JoinIssued { now, .. } => Some(now),
            Event::PowerManagementSet { now } => Some(now),
            _ => None,
        }
    }
}

impl<'a> Rounds<'a> {
    /// Whether the last frame was received by `now` and, on a network, the
    /// next look at that is no further off than
    /// [`super::watch::PROBE_INTERVAL_SECS`].
    pub open spec fn looks_soon(self, now: u64) -> bool {
        &&& self.heard <= now
        &&& self.watch.state is Up ==> self.watch.due <= now + probe_interval()
    }
}

/// A runner never puts off looking at the network it is on: it starts out
/// with the next look near, and on a clock that does not run backwards every
/// event leaves it near.
pub proof fn law_next_look_is_near<'a, C>(
    rounds: Rounds<'a>,
    telemetry: Telemetry<C>,
    event: Event<C>,
    last: u64,
    reconnect: Option<Reconnect<'a>>,
)
    requires
        rounds.wf(),
        rounds.expects(event),
        rounds.looks_soon(last),
        event.reading() matches Some(now) ==> last <= now,
    ensures
        reachable(last, probe_interval()) ==> Rounds::<'a>::starting(reconnect, last).looks_soon(
            last,
        ),
        rounds.following(telemetry, event).0.looks_soon(
            match event.reading() {
                Some(now) => now,
                None => last,
            },
        ),
{
}

/// Whether these are the rounds and the reports that a run of events goes
/// through, one more of each than there are events. Between two events the
/// counters may have been asked for.
pub open spec fn goes_through<'a, C>(
    stops: Seq<Rounds<'a>>,
    reports: Seq<Telemetry<C>>,
    events: Seq<Event<C>>,
) -> bool {
    &&& stops.len() == events.len() + 1
    &&& reports.len() == events.len() + 1
    &&& stops[0].wf()
    &&& forall|i: int|
        0 <= i < events.len() ==> {
            &&& stops[i].expects(#[trigger] events[i])
            &&& stops[i + 1] == stops[i].following(reports[i], events[i]).0
            &&& {
                ||| reports[i + 1] == stops[i].following(reports[i], events[i]).1
                ||| reports[i + 1] == stops[i].following(reports[i], events[i]).1.asked()
            }
        }
}

/// Whether nothing is heard in a run of events: the chip has no frame to
/// hand up, not even a damaged one, and is on no network whenever it is
/// asked. Frames may go out all the same, or be refused.
pub open spec fn is_silent<C>(events: Seq<Event<C>>) -> bool {
    forall|i: int|
        0 <= i < events.len() ==> {
            &&& (#[trigger] events[i]) matches Event::Received(result) ==> result
                == Ok::<Option<usize>, Error>(None)
            &&& events[i] matches Event::Probed { bssid, .. } ==> !on_network(bssid)
        }
}

/// Where a silent run stands, before or past the reading of the clock that
/// comes late enough.
spec fn silent_so_far<'a, C>(
    stop: Rounds<'a>,
    report: Telemetry<C>,
    since: u64,
    past_reading: bool,
) -> bool {
    &&& stop.wf()
    &&& report.associated == stop.watch.state is Up
    &&& !(stop.action is SetPowerManagement)
    &&& stop.watch.state is Up ==> {
        &&& !stop.received
        &&& stop.heard <= since
        &&& !(stop.action is Probe) ==> stop.watch.due <= since + rx_silence() + probe_interval()
        &&& past_reading ==> stop.action is Probe || stop.action is ReadLink
    }
}

/// One event of a silent run leads from where it should stand to where it
/// should stand. With `late` the event's own reading of the clock, if it has
/// one, comes late enough.
proof fn lemma_silent_step<'a, C>(
    stop: Rounds<'a>,
    report: Telemetry<C>,
    event: Event<C>,
    since: u64,
    past_reading: bool,
    late: bool,
)
    requires
        silent_so_far(stop, report, since, past_reading),
        stop.expects(event),
        event matches Event::Received(result) ==> result == Ok::<Option<usize>, Error>(None),
        event matches Event::Probed { bssid, .. } ==> !on_network(bssid),
        late ==> (event.reading() matches Some(now) ==> now >= since + rx_silence()
            + probe_interval()),
        late && !past_reading ==> event is Clock,
        past_reading ==> late,
    ensures
        silent_so_far(
            stop.following(report, event).0,
            stop.following(report, event).1,
            since,
            late,
        ),
{
}

/// Every stop of a silent run stands as it should.
proof fn lemma_silent_run<'a, C>(
    stops: Seq<Rounds<'a>>,
    reports: Seq<Telemetry<C>>,
    events: Seq<Event<C>>,
    since: u64,
    k: int,
    i: int,
)
    requires
        goes_through(stops, reports, events),
        is_silent(events),
        silent_so_far(stops[0], reports[0], since, false),
        0 <= k < events.len(),
        events[k] is Clock,
        forall|j: int|
            k <= j < events.len() ==> ((#[trigger] events[j]).reading() matches Some(now) ==> now
                >= since + rx_silence() + probe_interval()),
        0 <= i <= events.len(),
    ensures
        silent_so_far(stops[i], reports[i], since, i > k),
    decreases i,
{
    if i > 0 {
        lemma_silent_run(stops, reports, events, since, k, i - 1);
        let event = events[i - 1];
        assert(stops[i - 1].expects(event));
        assert(i > k ==> (event.reading() matches Some(now) ==> now >= since + rx_silence()
            + probe_interval()));
        lemma_silent_step(stops[i - 1], reports[i - 1], event, since, i - 1 > k, i > k);
    }
}

/// A silent run that is off the network stays off it.
proof fn lemma_silence_stays<'a, C>(
    stops: Seq<Rounds<'a>>,
    reports: Seq<Telemetry<C>>,
    events: Seq<Event<C>>,
    since: u64,
    k: int,
    i: int,
    j: int,
)
    requires
        goes_through(stops, reports, events),
        is_silent(events),
        silent_so_far(stops[0], reports[0], since, false),
        0 <= k < events.len(),
        events[k] is Clock,
        forall|n: int|
            k <= n < events.len() ==> ((#[trigger] events[n]).reading() matches Some(now) ==> now
                >= since + rx_silence() + probe_interval()),
        0 <= i <= j <= events.len(),
        !reports[i].associated,
    ensures
        !reports[j].associated,
    decreases j,
{
    if i < j {
        lemma_silence_stays(stops, reports, events, since, k, i, j - 1);
        lemma_silent_run(stops, reports, events, since, k, j - 1);
        assert(stops[j - 1].expects(events[j - 1]));
    }
}

/// A network that has gone is noticed within fifteen seconds of the last
/// frame, give or take a pass, however much is being sent. Nothing is
/// received after `since`, and the chip is on no network after `seen`, which
/// may be the same instant or up to ten seconds later. Once a pass has read
/// the clock fifteen seconds or more after `since`, and is through with
/// looking at the link and at the association, the report says that the chip
/// is on no network. It goes on saying so for as long as the chip does, and
/// a report nobody has written to says so too.
pub proof fn law_lost_network_is_noticed<'a, C>(
    stops: Seq<Rounds<'a>>,
    reports: Seq<Telemetry<C>>,
    events: Seq<Event<C>>,
    since: u64,
    seen: u64,
    k: int,
)
    requires
        goes_through(stops, reports, events),
        is_silent(events),
        stops[0].action is TakeSlot,
        !stops[0].received,
        stops[0].heard <= since,
        stops[0].looks_soon(seen),
        seen <= since + rx_silence(),
        reports[0].associated == stops[0].watch.state is Up,
        0 <= k < events.len(),
        events[k] is Clock,
        forall|j: int|
            k <= j < events.len() ==> ((#[trigger] events[j]).reading() matches Some(now) ==> now
                >= since + rx_silence() + probe_interval()),
    ensures
        forall|i: int|
            k < i <= events.len() && !((#[trigger] stops[i]).action is ReadLink
                || stops[i].action is Probe) ==> !reports[i].associated,
        forall|i: int, j: int|
            #![trigger reports[i], reports[j]]
            0 <= i <= j <= events.len() && !reports[i].associated ==> !reports[j].associated,
        !Telemetry::<C>::at_boot().associated,
{
    assert forall|i: int|
        k < i <= events.len() && !((#[trigger] stops[i]).action is ReadLink
            || stops[i].action is Probe) implies !reports[i].associated by {
        lemma_silent_run(stops, reports, events, since, k, i);
    }
    assert forall|i: int, j: int|
        #![trigger reports[i], reports[j]]
        0 <= i <= j <= events.len() && !reports[i].associated implies !reports[j].associated by {
        lemma_silence_stays(stops, reports, events, since, k, i, j);
    }
}

/// A network that is back is reported: the answer to a probe says so, and
/// the stack is told at once, or once the power management has been put back
/// where there are credentials.
pub proof fn law_found_network_is_reported<'a, C>(
    rounds: Rounds<'a>,
    telemetry: Telemetry<C>,
    bssid: Result<Option<[u8; 6]>, Error>,
    now: u64,
    set_at: u64,
)
    requires
        rounds.wf(),
        rounds.action is Probe,
        rounds.expects(Event::<C>::Probed { bssid, now }),
        !(rounds.watch.state is Up),
        on_network(bssid),
    ensures
        ({
            let (next, report, op) = rounds.following(telemetry, Event::Probed { bssid, now });
            match rounds.watch.reconnect {
                None => report.associated && op == QueueOp::Announce(true),
                Some(reconnect) => {
                    let (_, restored, told) = next.following(
                        report,
                        Event::PowerManagementSet { now: set_at },
                    );
                    &&& next.action == Action::SetPowerManagement(reconnect.power_management)
                    &&& restored.associated
                    &&& told == QueueOp::Announce(true)
                },
            }
        }),
{
}

} // verus!
