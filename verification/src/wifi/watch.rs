//! Watches the association, and puts it back if it was given the means to.
//!
//! One step is taken on each pass of the runner, and every step is either a
//! comparison against the clock or one control command: a runner that is
//! rejoining still moves frames, and one on a healthy link pays a
//! comparison. A join is issued and then looked in on, never waited for.

use super::radio::{Error, PowerManagement, Reconnect};
use crate::ticks::{self, TICKS_PER_MILLI, TICK_HZ};
use vstd::prelude::*;

verus! {

/// Seconds the radio must have received nothing before the association is
/// probed.
///
/// Receives are what counts and not traffic in general: a stack goes on
/// sending into a network that has gone.
pub const RX_SILENCE_SECS: u64 = 10;

/// Seconds between two probes, once the radio has been quiet for
/// [`RX_SILENCE_SECS`].
pub const PROBE_INTERVAL_SECS: u64 = 5;

/// Milliseconds between two looks at whether a join has landed.
pub const JOIN_POLL_MS: u64 = 250;

/// Seconds a join is waited on before it is written off.
pub const JOIN_BUDGET_SECS: u64 = 15;

/// Seconds between a failed join and the next.
pub const RETRY_INTERVAL_SECS: u64 = 10;

/// [`RX_SILENCE_SECS`] in ticks.
pub open spec fn rx_silence() -> int {
    RX_SILENCE_SECS * TICK_HZ
}

/// [`PROBE_INTERVAL_SECS`] in ticks.
pub open spec fn probe_interval() -> int {
    PROBE_INTERVAL_SECS * TICK_HZ
}

/// [`JOIN_POLL_MS`] in ticks.
pub open spec fn join_poll() -> int {
    JOIN_POLL_MS * TICKS_PER_MILLI
}

/// [`JOIN_BUDGET_SECS`] in ticks.
pub open spec fn join_budget() -> int {
    JOIN_BUDGET_SECS * TICK_HZ
}

/// [`RETRY_INTERVAL_SECS`] in ticks.
pub open spec fn retry_interval() -> int {
    RETRY_INTERVAL_SECS * TICK_HZ
}

/// Whether there is an instant `ticks` after `now`.
pub open spec fn reachable(now: u64, ticks: int) -> bool {
    now + ticks <= u64::MAX
}

/// The instant `ticks` after `now`.
pub open spec fn later(now: u64, ticks: int) -> u64 {
    (now + ticks) as u64
}

/// Where the runner has got to with the association.
#[derive(Clone, Copy, Debug, PartialEq, Eq, Structural)]
pub enum Association {
    /// On a network, as far as the last probe could tell.
    Up,
    /// Off it, with a join issued and waited on until `deadline`.
    Joining {
        /// When the join stops being waited on.
        deadline: u64,
    },
    /// Off it, with nothing outstanding.
    Down,
}

/// What an answer to a probe comes to.
#[derive(Clone, Copy, Debug, PartialEq, Eq)]
pub enum Verdict<'a> {
    /// Nothing has changed, or nothing can be done about it yet.
    Unchanged,
    /// The association is gone. A join follows where there is anything to
    /// join with.
    Lost(Option<Reconnect<'a>>),
    /// Still off the network: issue a join.
    Join(Reconnect<'a>),
    /// Back on the network: put back the power management that associating
    /// reset, and only after that record the association.
    Restore(PowerManagement),
    /// Back on the network.
    Associated,
}

/// Watches the association.
#[derive(Clone, Copy, Debug, PartialEq, Eq)]
pub struct Watch<'a> {
    /// What to rejoin with, or `None` for a runner that only reports.
    pub reconnect: Option<Reconnect<'a>>,
    /// Where the association has got to.
    pub state: Association,
    /// When the next probe or join attempt is due.
    pub due: u64,
}

/// Whether the chip says it is on a network.
pub open spec fn on_network(bssid: Result<Option<[u8; 6]>, Error>) -> bool {
    bssid matches Ok(Some(_))
}

/// Whether the chip says it is on a network, given its answer to which one.
///
/// A command that did not get through counts as "no": a radio off the
/// network and a chip that has stopped answering want the same done about
/// them.
pub fn probe(bssid: Result<Option<[u8; 6]>, Error>) -> (answer: bool)
    ensures
        answer == on_network(bssid),
{
    match bssid {
        Ok(Some(_)) => true,
        _ => false,
    }
}

impl<'a> Watch<'a> {
    /// Whether the association is to be probed at `now`, when a frame was
    /// last received at `heard`. On a network that waits for silence, since
    /// only there may the radio be carrying something.
    pub open spec fn asks(self, now: u64, heard: u64) -> bool {
        now >= self.due && (self.state is Up ==> now >= heard + rx_silence())
    }

    /// Whether a pass at `now` can be reckoned with instants there are.
    pub open spec fn pass_reachable(self, now: u64, heard: u64) -> bool {
        now >= self.due && self.state is Up ==> {
            &&& reachable(heard, rx_silence())
            &&& now >= heard + rx_silence() ==> reachable(now, probe_interval())
        }
    }

    /// The watch after a pass at `now`.
    pub open spec fn passed(self, now: u64, heard: u64) -> Watch<'a> {
        if self.asks(now, heard) && self.state is Up {
            Watch { due: later(now, probe_interval()), ..self }
        } else {
            self
        }
    }

    /// How far past `now` the next step is due once a probe has been
    /// answered. `None` where the answer makes no difference to that, or
    /// leads to a command that sets its own pace.
    pub open spec fn probed_delay(self, answer: bool, now: u64) -> Option<int> {
        match (self.state, answer) {
            (Association::Up, true) => None,
            (Association::Joining { deadline }, false) => Some(
                if now >= deadline {
                    retry_interval()
                } else {
                    join_poll()
                },
            ),
            (_, _) => if self.reconnect is Some {
                None
            } else {
                Some(probe_interval())
            },
        }
    }

    /// The watch after a probe was answered at `now`.
    pub open spec fn probed_to(self, answer: bool, now: u64) -> Watch<'a> {
        let due = match self.probed_delay(answer, now) {
            Some(delay) => later(now, delay),
            None => self.due,
        };
        let state = match (self.state, answer) {
            (Association::Up, true) => Association::Up,
            (Association::Up, false) => Association::Down,
            (_, true) => if self.reconnect is Some {
                self.state
            } else {
                Association::Up
            },
            (Association::Joining { deadline }, false) => if now >= deadline {
                Association::Down
            } else {
                self.state
            },
            (Association::Down, false) => Association::Down,
        };
        Watch { state, due, ..self }
    }

    /// What the answer to a probe comes to.
    pub open spec fn verdict(self, answer: bool) -> Verdict<'a> {
        match (self.state, answer) {
            (Association::Up, true) => Verdict::Unchanged,
            (Association::Up, false) => Verdict::Lost(self.reconnect),
            (_, true) => match self.reconnect {
                Some(reconnect) => Verdict::Restore(reconnect.power_management),
                None => Verdict::Associated,
            },
            (Association::Joining { .. }, false) => Verdict::Unchanged,
            (Association::Down, false) => match self.reconnect {
                Some(reconnect) => Verdict::Join(reconnect),
                None => Verdict::Unchanged,
            },
        }
    }

    /// The watch after a join was issued at `now`, or refused.
    pub open spec fn join_issued_to(self, taken: bool, now: u64) -> Watch<'a> {
        if taken {
            Watch {
                state: Association::Joining { deadline: later(now, join_budget()) },
                due: later(now, join_poll()),
                ..self
            }
        } else {
            Watch { state: Association::Down, due: later(now, retry_interval()), ..self }
        }
    }

    /// The watch once an association has been recorded at `now`.
    pub open spec fn associated_at(self, now: u64) -> Watch<'a> {
        Watch { state: Association::Up, due: later(now, probe_interval()), ..self }
    }

    /// Starts out on the association the runner was handed.
    pub fn new(reconnect: Option<Reconnect<'a>>, now: u64) -> (watch: Watch<'a>)
        requires
            reachable(now, probe_interval()),
        ensures
            watch == (Watch {
                reconnect,
                state: Association::Up,
                due: later(now, probe_interval()),
            }),
    {
        Watch {
            reconnect,
            state: Association::Up,
            due: ticks::after(now, ticks::from_secs(PROBE_INTERVAL_SECS)),
        }
    }

    /// Says whether the association is to be probed at `now`, given when a
    /// frame was last received.
    pub fn pass(&mut self, now: u64, heard: u64) -> (ask: bool)
        requires
            old(self).pass_reachable(now, heard),
        ensures
            ask == old(self).asks(now, heard),
            *final(self) == old(self).passed(now, heard),
    {
        if now < self.due {
            return false;
        }
        match self.state {
            Association::Up => {
                if now < ticks::after(heard, ticks::from_secs(RX_SILENCE_SECS)) {
                    return false;
                }
                self.due = ticks::after(now, ticks::from_secs(PROBE_INTERVAL_SECS));
                true
            },
            _ => true,
        }
    }

    /// Takes the answer to a probe.
    pub fn probed(&mut self, answer: bool, now: u64) -> (verdict: Verdict<'a>)
        requires
            old(self).probed_delay(answer, now) matches Some(delay) ==> reachable(now, delay),
        ensures
            verdict == old(self).verdict(answer),
            *final(self) == old(self).probed_to(answer, now),
    {
        match self.state {
            Association::Up => {
                if answer {
                    return Verdict::Unchanged;
                }
                self.state = Association::Down;
                match self.reconnect {
                    Some(reconnect) => Verdict::Lost(Some(reconnect)),
                    None => {
                        // Nothing to rejoin with: keep asking, so that a
                        // link something else puts back is still noticed.
                        self.due = ticks::after(now, ticks::from_secs(PROBE_INTERVAL_SECS));
                        Verdict::Lost(None)
                    },
                }
            },
            Association::Joining { deadline } => {
                if answer {
                    return self.found(now);
                }
                if now >= deadline {
                    self.state = Association::Down;
                    self.due = ticks::after(now, ticks::from_secs(RETRY_INTERVAL_SECS));
                } else {
                    self.due = ticks::after(now, ticks::from_millis(JOIN_POLL_MS));
                }
                Verdict::Unchanged
            },
            // Asked before it is told: a join issued over a link that is
            // already up takes it down again.
            Association::Down => {
                if answer {
                    return self.found(now);
                }
                match self.reconnect {
                    Some(reconnect) => Verdict::Join(reconnect),
                    None => {
                        self.due = ticks::after(now, ticks::from_secs(PROBE_INTERVAL_SECS));
                        Verdict::Unchanged
                    },
                }
            },
        }
    }

    /// Takes an association found where there was none.
    fn found(&mut self, now: u64) -> (verdict: Verdict<'a>)
        requires
            old(self).reconnect is None ==> reachable(now, probe_interval()),
        ensures
            verdict == match old(self).reconnect {
                Some(reconnect) => Verdict::Restore(reconnect.power_management),
                None => Verdict::<'a>::Associated,
            },
            *final(self) == match old(self).reconnect {
                Some(_) => *old(self),
                None => old(self).associated_at(now),
            },
    {
        match self.reconnect {
            Some(reconnect) => Verdict::Restore(reconnect.power_management),
            None => {
                self.associate(now);
                Verdict::Associated
            },
        }
    }

    /// Takes whether the chip accepted a join.
    ///
    /// Accepted is not landed: it is looked in on from here. A chip that
    /// would not even take the request is left alone for a while.
    pub fn join_issued(&mut self, taken: bool, now: u64)
        requires
            taken ==> reachable(now, join_budget()),
            !taken ==> reachable(now, retry_interval()),
        ensures
            *final(self) == old(self).join_issued_to(taken, now),
    {
        if taken {
            self.state = Association::Joining {
                deadline: ticks::after(now, ticks::from_secs(JOIN_BUDGET_SECS)),
            };
            self.due = ticks::after(now, ticks::from_millis(JOIN_POLL_MS));
        } else {
            self.state = Association::Down;
            self.due = ticks::after(now, ticks::from_secs(RETRY_INTERVAL_SECS));
        }
    }

    /// Records an association.
    pub fn associate(&mut self, now: u64)
        requires
            reachable(now, probe_interval()),
        ensures
            *final(self) == old(self).associated_at(now),
    {
        self.state = Association::Up;
        self.due = ticks::after(now, ticks::from_secs(PROBE_INTERVAL_SECS));
    }
}

/// A radio that is carrying anything is not disturbed: on a network the
/// association is probed only after nothing has been received for
/// [`RX_SILENCE_SECS`], and then at most once every
/// [`PROBE_INTERVAL_SECS`].
pub proof fn law_probe_waits_for_silence<'a>(watch: Watch<'a>, now: u64, heard: u64, next: u64)
    requires
        watch.state is Up,
        watch.pass_reachable(now, heard),
        watch.asks(now, heard),
    ensures
        now >= heard + rx_silence(),
        watch.passed(now, heard).asks(next, heard) ==> next >= now + probe_interval(),
{
}

/// Silence is looked into: on a network that nothing has been received from
/// for [`RX_SILENCE_SECS`], a pass sends a probe unless one was sent in the
/// last [`PROBE_INTERVAL_SECS`]. So fifteen seconds after the last frame one
/// has been sent since the silence was long enough, or is sent now.
pub proof fn law_silence_is_looked_into<'a>(watch: Watch<'a>, sent_at: u64, now: u64, heard: u64)
    requires
        watch.state is Up,
        watch.due == sent_at + probe_interval(),
        now >= heard + rx_silence(),
    ensures
        watch.asks(now, heard) || now < sent_at + probe_interval(),
        now >= heard + rx_silence() + probe_interval() ==> watch.asks(now, heard) || sent_at > heard
            + rx_silence(),
{
}

/// Nothing is joined with that was not given: without credentials no answer
/// leads to a join or to a change of power management.
pub proof fn law_without_credentials_only_watches<'a>(watch: Watch<'a>, answer: bool, now: u64)
    requires
        watch.reconnect is None,
    ensures
        watch.verdict(answer) is Unchanged || watch.verdict(answer) is Associated || watch.verdict(
            answer,
        ) == Verdict::<'a>::Lost(None),
        watch.probed_to(answer, now).reconnect is None,
        !(watch.state is Joining) ==> !(watch.probed_to(answer, now).state is Joining),
{
}

/// A join is only issued to a chip that has just said it is off the network,
/// and never while one is still being waited on.
pub proof fn law_join_follows_a_no<'a>(watch: Watch<'a>, answer: bool, now: u64)
    requires
        watch.verdict(answer) is Join || watch.verdict(answer) matches Verdict::Lost(Some(_)),
    ensures
        !answer,
        !(watch.state is Joining),
        watch.probed_to(answer, now).state is Down,
{
}

/// A join that has not landed by its deadline is written off, and another is
/// not tried before [`RETRY_INTERVAL_SECS`] have passed.
pub proof fn law_join_is_written_off<'a>(
    watch: Watch<'a>,
    deadline: u64,
    now: u64,
    next: u64,
    heard: u64,
)
    requires
        watch.state == (Association::Joining { deadline }),
        now >= deadline,
        reachable(now, retry_interval()),
    ensures
        watch.probed_to(false, now).state is Down,
        watch.probed_to(false, now).asks(next, heard) <==> next >= now + retry_interval(),
{
}

/// The runner's spans, in microseconds: ten seconds of silence, five between
/// probes, a quarter of one between looks at a join, fifteen for a join, ten
/// between a failed join and the next. Adding one to an instant gives the
/// instant that much later, where there is one.
pub proof fn law_spans_are_what_they_say(now: u64, ticks: int)
    ensures
        rx_silence() == 10_000_000,
        probe_interval() == 5_000_000,
        join_poll() == 250_000,
        join_budget() == 15_000_000,
        retry_interval() == 10_000_000,
        reachable(now, ticks) <==> now + ticks <= 0xffff_ffff_ffff_ffff,
        ticks >= 0 && reachable(now, ticks) ==> later(now, ticks) == now + ticks,
{
}

/// Being on a network is having its address: no address and no answer both
/// count as being off it.
pub proof fn law_no_address_is_no_network(bssid: Result<Option<[u8; 6]>, Error>)
    ensures
        on_network(bssid) <==> (bssid is Ok && bssid->Ok_0 is Some),
{
}

/// A probe is sent when it is due, and on a network not within ten seconds
/// of a frame. Sending one on a network puts the next five seconds off;
/// nothing else about the watch changes, and nothing at all if none is sent.
pub proof fn law_probe_is_sent_when_due<'a>(watch: Watch<'a>, now: u64, heard: u64)
    requires
        now <= u64::MAX - 10_000_000,
        heard <= u64::MAX - 10_000_000,
    ensures
        watch.pass_reachable(now, heard),
        now < watch.due ==> !watch.asks(now, heard),
        now >= watch.due && !(watch.state is Up) ==> watch.asks(now, heard),
        now >= watch.due && watch.state is Up ==> (watch.asks(now, heard) <==> now - heard
            >= 10_000_000),
        watch.state is Up && watch.asks(now, heard) ==> watch.passed(now, heard).due - now
            == 5_000_000,
        !(watch.state is Up && watch.asks(now, heard)) ==> watch.passed(now, heard).due
            == watch.due,
        watch.passed(now, heard).state == watch.state,
        watch.passed(now, heard).reconnect == watch.reconnect,
{
}

/// A chip that says it is on a network is left alone where that is known. It
/// is otherwise on it from now on, the next look five seconds off; with
/// credentials that waits for the power management they name.
pub proof fn law_network_found<'a>(watch: Watch<'a>, now: u64)
    requires
        now <= u64::MAX - 10_000_000,
    ensures
        ({
            let after = watch.probed_to(true, now);
            let verdict = watch.verdict(true);
            &&& watch.probed_delay(true, now) matches Some(delay) ==> reachable(now, delay)
            &&& after.reconnect == watch.reconnect
            &&& watch.state is Up ==> verdict is Unchanged && after == watch
            &&& !(watch.state is Up) ==> match watch.reconnect {
                Some(reconnect) => {
                    &&& verdict == Verdict::<'a>::Restore(reconnect.power_management)
                    &&& after == watch
                },
                None => {
                    &&& verdict is Associated
                    &&& after.state is Up
                    &&& after.due - now == 5_000_000
                },
            }
        }),
{
}

/// A chip that says it is off the network is off it from now on. With
/// credentials a join follows at once, unless one is being waited on: that
/// is looked at again a quarter of a second on, until its deadline, and is
/// given up for ten seconds after. Without credentials the chip is asked
/// again five seconds on.
pub proof fn law_network_missing<'a>(watch: Watch<'a>, now: u64)
    requires
        now <= u64::MAX - 10_000_000,
    ensures
        ({
            let after = watch.probed_to(false, now);
            let verdict = watch.verdict(false);
            &&& watch.probed_delay(false, now) matches Some(delay) ==> reachable(now, delay)
            &&& after.reconnect == watch.reconnect
            &&& match watch.state {
                Association::Up => {
                    &&& verdict == Verdict::<'a>::Lost(watch.reconnect)
                    &&& after.state is Down
                    &&& watch.reconnect is None ==> after.due - now == 5_000_000
                    &&& watch.reconnect is Some ==> after.due == watch.due
                },
                Association::Joining { deadline } => {
                    &&& verdict is Unchanged
                    &&& now < deadline ==> after.state == watch.state && after.due - now == 250_000
                    &&& now >= deadline ==> after.state is Down && after.due - now == 10_000_000
                },
                Association::Down => {
                    &&& after.state is Down
                    &&& match watch.reconnect {
                        Some(reconnect) => verdict == Verdict::<'a>::Join(reconnect) && after
                            == watch,
                        None => verdict is Unchanged && after.due - now == 5_000_000,
                    }
                },
            }
        }),
{
}

/// A join the chip took is waited on for fifteen seconds and first looked at
/// a quarter of a second on; one it refused is left for ten seconds. An
/// association that is recorded is up, and looked at five seconds on. None
/// of them touches the credentials.
pub proof fn law_commands_set_the_pace<'a>(watch: Watch<'a>, now: u64)
    requires
        now <= u64::MAX - 15_000_000,
    ensures
        ({
            let taken = watch.join_issued_to(true, now);
            let refused = watch.join_issued_to(false, now);
            let recorded = watch.associated_at(now);
            &&& taken.state matches Association::Joining { deadline } && deadline - now
                == 15_000_000
            &&& taken.due - now == 250_000
            &&& refused.state is Down
            &&& refused.due - now == 10_000_000
            &&& recorded.state is Up
            &&& recorded.due - now == 5_000_000
            &&& taken.reconnect == watch.reconnect
            &&& refused.reconnect == watch.reconnect
            &&& recorded.reconnect == watch.reconnect
        }),
{
}

} // verus!
