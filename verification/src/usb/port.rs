//! The root port: waiting for a device to come or go, and driving the bus
//! reset an arrival needs.

use vstd::prelude::*;

verus! {

/// The port's encoding of a low-speed device.
pub const PORT_SPEED_LOW: u8 = 2;

/// The port's encoding of a full-speed device.
pub const PORT_SPEED_FULL: u8 = 1;

/// The speed a device settled on.
#[derive(Clone, Copy, Debug, PartialEq, Eq, Structural)]
pub enum Speed {
    /// 1.5 Mbit/s.
    Low,
    /// 12 Mbit/s.
    Full,
    /// 480 Mbit/s.
    High,
}

/// What the root port has to report.
///
/// Overcurrent is not among it: the controller does not expose it.
#[derive(Clone, Copy, Debug, PartialEq, Eq, Structural)]
pub enum DeviceEvent {
    /// A device is attached, has been reset, and runs at this speed.
    Connected(Speed),
    /// The device is gone.
    Disconnected,
}

/// What the port needs done next.
#[derive(Clone, Copy, Debug, PartialEq, Eq, Structural)]
pub enum PortAction {
    /// Wait for the port to change, then report [`PortEvent::Changed`].
    AwaitChange,
    /// Read whether a device is connected, as [`PortEvent::Connected`].
    ReadConnected,
    /// Reset the port, then report [`PortEvent::Reset`].
    ResetPort,
    /// Discard the latched port change, which is the reset's own doing, then
    /// report [`PortEvent::ChangeCleared`].
    ClearChange,
    /// Read whether the port is enabled, as [`PortEvent::Enabled`].
    ReadEnabled,
    /// Read the port's speed field, as [`PortEvent::SpeedField`].
    ReadSpeed,
    /// The wait is over: the host stack is told this.
    Report(DeviceEvent),
    /// The reset is over, and the port came up at this speed or not at all.
    ResetDone(Option<Speed>),
}

/// What came of a [`PortAction`].
#[derive(Clone, Copy, Debug, PartialEq, Eq, Structural)]
pub enum PortEvent {
    /// The port changed.
    Changed,
    /// Whether a device is connected.
    Connected(bool),
    /// The port has been reset.
    Reset,
    /// The latched change has been discarded.
    ChangeCleared,
    /// Whether the port is enabled.
    Enabled(bool),
    /// What the speed field reads.
    SpeedField(u8),
}

/// Where a wait for a device, or a plain bus reset, has got to.
#[derive(Clone, Copy, Debug, PartialEq, Eq, Structural)]
pub enum PortPhase {
    /// The port has not changed yet.
    Waiting,
    /// It changed; is anything connected?
    Connecting,
    /// The port is being reset.
    Resetting,
    /// The reset's own change is being discarded.
    Clearing,
    /// Did the port come up?
    Enabling,
    /// It did; at what speed?
    Measuring,
    /// There is an answer.
    Finished,
}

/// The speed behind the port's speed field.
pub open spec fn speed_of(field: u8) -> Speed {
    if field == PORT_SPEED_LOW {
        Speed::Low
    } else if field == PORT_SPEED_FULL {
        Speed::Full
    } else {
        Speed::High
    }
}

/// Decodes the port's speed field.
pub fn decode_speed(field: u8) -> (speed: Speed)
    ensures
        speed == speed_of(field),
{
    if field == PORT_SPEED_LOW {
        Speed::Low
    } else if field == PORT_SPEED_FULL {
        Speed::Full
    } else {
        Speed::High
    }
}

/// A wait for a device to come or go, or a plain bus reset.
#[derive(Clone, Copy, Debug, PartialEq, Eq, Structural)]
pub struct PortWatch {
    /// Where it has got to.
    pub phase: PortPhase,
    /// Whether this is a bus reset on its own, rather than a wait.
    pub reset_only: bool,
}

impl PortWatch {
    /// A wait that has seen nothing yet.
    pub open spec fn waiting() -> PortWatch {
        PortWatch { phase: PortPhase::Waiting, reset_only: false }
    }

    /// The action that belongs to each phase before the last.
    pub open spec fn due(self) -> PortAction {
        match self.phase {
            PortPhase::Waiting => PortAction::AwaitChange,
            PortPhase::Connecting => PortAction::ReadConnected,
            PortPhase::Resetting => PortAction::ResetPort,
            PortPhase::Clearing => PortAction::ClearChange,
            PortPhase::Enabling => PortAction::ReadEnabled,
            PortPhase::Measuring => PortAction::ReadSpeed,
            PortPhase::Finished => PortAction::AwaitChange,
        }
    }

    /// Whether `event` answers the action of the current phase.
    pub open spec fn expects(self, event: PortEvent) -> bool {
        match self.phase {
            PortPhase::Waiting => event is Changed,
            PortPhase::Connecting => event is Connected,
            PortPhase::Resetting => event is Reset,
            PortPhase::Clearing => event is ChangeCleared,
            PortPhase::Enabling => event is Enabled,
            PortPhase::Measuring => event is SpeedField,
            PortPhase::Finished => false,
        }
    }

    /// The phase that `event` leads to, and the answer it brings if it
    /// brings one.
    pub open spec fn following(self, event: PortEvent) -> (PortPhase, Option<PortAction>) {
        match event {
            PortEvent::Changed => (PortPhase::Connecting, None),
            PortEvent::Connected(connected) => if connected {
                (PortPhase::Resetting, None)
            } else {
                (PortPhase::Finished, Some(PortAction::Report(DeviceEvent::Disconnected)))
            },
            PortEvent::Reset => (PortPhase::Clearing, None),
            PortEvent::ChangeCleared => (PortPhase::Enabling, None),
            PortEvent::Enabled(enabled) => if enabled {
                (PortPhase::Measuring, None)
            } else if self.reset_only {
                (PortPhase::Finished, Some(PortAction::ResetDone(None)))
            } else {
                (PortPhase::Waiting, None)
            },
            PortEvent::SpeedField(field) => (
                PortPhase::Finished,
                Some(
                    if self.reset_only {
                        PortAction::ResetDone(Some(speed_of(field)))
                    } else {
                        PortAction::Report(DeviceEvent::Connected(speed_of(field)))
                    },
                ),
            ),
        }
    }

    /// Starts a wait for a device to attach or detach.
    pub fn wait_for_device_event() -> (started: (PortWatch, PortAction))
        ensures
            started.0 == PortWatch::waiting(),
            started.1 == PortAction::AwaitChange,
    {
        (PortWatch { phase: PortPhase::Waiting, reset_only: false }, PortAction::AwaitChange)
    }

    /// Starts a bus reset, which invalidates every address on the bus.
    pub fn bus_reset() -> (started: (PortWatch, PortAction))
        ensures
            started.0 == (PortWatch { phase: PortPhase::Resetting, reset_only: true }),
            started.1 == PortAction::ResetPort,
    {
        (PortWatch { phase: PortPhase::Resetting, reset_only: true }, PortAction::ResetPort)
    }

    /// Says what follows `event`.
    ///
    /// An arrival is reset to completion before it is reported. A port that
    /// does not come up enabled is swallowed and the wait resumes, so a
    /// device that fails to come up is not reported at all.
    pub fn step(&mut self, event: PortEvent) -> (action: PortAction)
        requires
            old(self).expects(event),
        ensures
            final(self).reset_only == old(self).reset_only,
            final(self).phase == old(self).following(event).0,
            action == match old(self).following(event).1 {
                Some(answer) => answer,
                None => final(self).due(),
            },
    {
        match event {
            PortEvent::Changed => {
                self.phase = PortPhase::Connecting;
                PortAction::ReadConnected
            },
            PortEvent::Connected(connected) => {
                if connected {
                    self.phase = PortPhase::Resetting;
                    PortAction::ResetPort
                } else {
                    self.phase = PortPhase::Finished;
                    PortAction::Report(DeviceEvent::Disconnected)
                }
            },
            PortEvent::Reset => {
                self.phase = PortPhase::Clearing;
                PortAction::ClearChange
            },
            PortEvent::ChangeCleared => {
                self.phase = PortPhase::Enabling;
                PortAction::ReadEnabled
            },
            PortEvent::Enabled(enabled) => {
                if enabled {
                    self.phase = PortPhase::Measuring;
                    PortAction::ReadSpeed
                } else if self.reset_only {
                    self.phase = PortPhase::Finished;
                    PortAction::ResetDone(None)
                } else {
                    self.phase = PortPhase::Waiting;
                    PortAction::AwaitChange
                }
            },
            PortEvent::SpeedField(field) => {
                let speed = decode_speed(field);
                self.phase = PortPhase::Finished;
                if self.reset_only {
                    PortAction::ResetDone(Some(speed))
                } else {
                    PortAction::Report(DeviceEvent::Connected(speed))
                }
            },
        }
    }
}

impl PortWatch {
    /// Where this stands after a run of events.
    pub open spec fn after(self, events: Seq<PortEvent>) -> PortWatch
        decreases events.len(),
    {
        if events.len() == 0 {
            self
        } else {
            let before = self.after(events.drop_last());
            PortWatch { phase: before.following(events.last()).0, ..before }
        }
    }

    /// Whether each event of a run answers the action that was due.
    pub open spec fn accepts(self, events: Seq<PortEvent>) -> bool
        decreases events.len(),
    {
        events.len() > 0 ==> self.accepts(events.drop_last()) && self.after(
            events.drop_last(),
        ).expects(events.last())
    }
}

/// A wait stays a wait, and each phase past the first names the event that
/// led to it.
proof fn lemma_phase_names_event(events: Seq<PortEvent>)
    requires
        PortWatch::waiting().accepts(events),
    ensures
        ({
            let watch = PortWatch::waiting().after(events);
            &&& !watch.reset_only
            &&& watch.phase != PortPhase::Waiting ==> events.len() > 0
            &&& match watch.phase {
                PortPhase::Waiting => true,
                PortPhase::Connecting => events.last() == PortEvent::Changed,
                PortPhase::Resetting => events.last() == PortEvent::Connected(true),
                PortPhase::Clearing => events.last() == PortEvent::Reset,
                PortPhase::Enabling => events.last() == PortEvent::ChangeCleared,
                PortPhase::Measuring => events.last() == PortEvent::Enabled(true),
                PortPhase::Finished => events.last() is SpeedField || events.last()
                    == PortEvent::Connected(false),
            }
        }),
    decreases events.len(),
{
    if events.len() > 0 {
        lemma_phase_names_event(events.drop_last());
    }
}

/// On an arrival the bus reset is driven to completion before the device is
/// reported, and the speed reported is the one it settled on after the
/// reset: whatever the port did before, a wait that ends in a connection
/// ends with a change, a connection, a reset, the reset's own change
/// discarded, and the port found enabled, in that order and with nothing
/// between.
pub proof fn law_arrival_is_reset_before_report(events: Seq<PortEvent>)
    requires
        PortWatch::waiting().accepts(events),
        events.len() > 0,
        events.last() is SpeedField,
    ensures
        events.len() >= 6,
        events.subrange(events.len() - 6, events.len() - 1) == seq![
            PortEvent::Changed,
            PortEvent::Connected(true),
            PortEvent::Reset,
            PortEvent::ChangeCleared,
            PortEvent::Enabled(true),
        ],
{
    reveal_with_fuel(PortWatch::accepts, 7);
    reveal_with_fuel(PortWatch::after, 2);
    let e5 = events.drop_last();
    let e4 = e5.drop_last();
    let e3 = e4.drop_last();
    let e2 = e3.drop_last();
    let e1 = e2.drop_last();
    lemma_phase_names_event(e5);
    lemma_phase_names_event(e4);
    lemma_phase_names_event(e3);
    lemma_phase_names_event(e2);
    lemma_phase_names_event(e1);
}

/// A device that fails to come up does not surface as an event: a port found
/// not enabled puts the wait back where it began.
pub proof fn law_failed_arrival_is_swallowed(watch: PortWatch)
    requires
        !watch.reset_only,
        watch.phase == PortPhase::Enabling,
    ensures
        watch.following(PortEvent::Enabled(false)).0 == PortPhase::Waiting,
        watch.following(PortEvent::Enabled(false)).1 is None,
{
}

/// A wait that ends with a connection reports the speed the port settled on
/// after the reset: low for a field of two, full for one, high for any
/// other. A plain reset comes to the same speed.
pub proof fn law_speed_is_what_the_port_says(events: Seq<PortEvent>, reset: PortWatch, field: u8)
    requires
        PortWatch::waiting().accepts(events),
        events.len() > 0,
        events.last() == PortEvent::SpeedField(field),
        reset.reset_only,
    ensures
        ({
            let ended = PortWatch::waiting().after(events.drop_last()).following(events.last());
            let answer = reset.following(PortEvent::SpeedField(field));
            &&& ended.0 is Finished
            &&& answer.0 is Finished
            &&& field == 2 ==> ended.1 == Some(
                PortAction::Report(DeviceEvent::Connected(Speed::Low)),
            )
            &&& field == 1 ==> ended.1 == Some(
                PortAction::Report(DeviceEvent::Connected(Speed::Full)),
            )
            &&& field != 1 && field != 2 ==> ended.1 == Some(
                PortAction::Report(DeviceEvent::Connected(Speed::High)),
            )
            &&& field == 2 ==> answer.1 == Some(PortAction::ResetDone(Some(Speed::Low)))
            &&& field == 1 ==> answer.1 == Some(PortAction::ResetDone(Some(Speed::Full)))
            &&& field != 1 && field != 2 ==> answer.1 == Some(
                PortAction::ResetDone(Some(Speed::High)),
            )
        }),
{
    lemma_phase_names_event(events.drop_last());
}

/// A wait ends with a departure where the port changed and nothing is
/// connected, with an arrival where the speed has been read, and goes on
/// otherwise.
pub proof fn law_wait_ends_with_news(events: Seq<PortEvent>)
    requires
        PortWatch::waiting().accepts(events),
        events.len() > 0,
    ensures
        ({
            let (phase, answer) = PortWatch::waiting().after(events.drop_last()).following(
                events.last(),
            );
            &&& events.last() == PortEvent::Connected(false) ==> answer == Some(
                PortAction::Report(DeviceEvent::Disconnected),
            )
            &&& answer is Some <==> events.last() == PortEvent::Connected(false)
                || events.last() is SpeedField
            &&& phase is Finished <==> answer is Some
        }),
{
    lemma_phase_names_event(events.drop_last());
}

/// An arrival that goes well is driven through: each event is waited for in
/// turn, and the port is told to do the next thing on the way.
pub proof fn law_arrival_is_driven_through(field: u8)
    ensures
        ({
            let start = PortWatch::waiting();
            let changed = PortWatch { phase: start.following(PortEvent::Changed).0, ..start };
            let connected = PortWatch {
                phase: changed.following(PortEvent::Connected(true)).0,
                ..changed
            };
            let reset = PortWatch { phase: connected.following(PortEvent::Reset).0, ..connected };
            let cleared = PortWatch {
                phase: reset.following(PortEvent::ChangeCleared).0,
                ..reset
            };
            let enabled = PortWatch {
                phase: cleared.following(PortEvent::Enabled(true)).0,
                ..cleared
            };
            &&& start.due() is AwaitChange && start.expects(PortEvent::Changed)
            &&& changed.due() is ReadConnected && changed.expects(PortEvent::Connected(true))
                && changed.expects(PortEvent::Connected(false))
            &&& connected.due() is ResetPort && connected.expects(PortEvent::Reset)
            &&& reset.due() is ClearChange && reset.expects(PortEvent::ChangeCleared)
            &&& cleared.due() is ReadEnabled && cleared.expects(PortEvent::Enabled(true))
                && cleared.expects(PortEvent::Enabled(false))
            &&& enabled.due() is ReadSpeed && enabled.expects(PortEvent::SpeedField(field))
            &&& start.following(PortEvent::Changed).1 is None
            &&& changed.following(PortEvent::Connected(true)).1 is None
            &&& connected.following(PortEvent::Reset).1 is None
            &&& reset.following(PortEvent::ChangeCleared).1 is None
            &&& cleared.following(PortEvent::Enabled(true)).1 is None
        }),
{
}

/// A plain bus reset clears its own change, and comes to nothing where the
/// port does not enable. It waits for no change of the port.
pub proof fn law_bus_reset_runs_to_its_end(watch: PortWatch)
    requires
        watch.reset_only,
        watch.phase is Resetting,
    ensures
        ({
            let cleared = PortWatch { phase: watch.following(PortEvent::Reset).0, ..watch };
            let read = PortWatch {
                phase: cleared.following(PortEvent::ChangeCleared).0,
                ..cleared
            };
            &&& watch.due() is ResetPort
            &&& cleared.due() is ClearChange
            &&& read.due() is ReadEnabled
            &&& read.following(PortEvent::Enabled(false)).0 is Finished
            &&& read.following(PortEvent::Enabled(false)).1 == Some(PortAction::ResetDone(None))
            &&& read.following(PortEvent::Enabled(true)).0 is Measuring
            &&& read.following(PortEvent::Enabled(true)).1 is None
        }),
{
}

/// Only what was asked for counts as an answer to it.
pub proof fn law_each_action_has_its_answer(watch: PortWatch, event: PortEvent)
    requires
        watch.expects(event),
    ensures
        match event {
            PortEvent::Changed => watch.due() is AwaitChange,
            PortEvent::Connected(_) => watch.due() is ReadConnected,
            PortEvent::Reset => watch.due() is ResetPort,
            PortEvent::ChangeCleared => watch.due() is ClearChange,
            PortEvent::Enabled(_) => watch.due() is ReadEnabled,
            PortEvent::SpeedField(_) => watch.due() is ReadSpeed,
        },
        !(watch.phase is Finished),
{
}

} // verus!
