//! Pipes: one host channel bound to one device endpoint, and everything
//! fixed about that endpoint when it is bound.

use super::port::PORT_SPEED_LOW;
use crate::ticks;
use vstd::prelude::*;

verus! {

/// An endpoint's transfer type.
#[derive(Clone, Copy, Debug, PartialEq, Eq, Structural)]
pub enum EndpointType {
    /// Device management, on endpoint 0.
    Control,
    /// Time-critical and unreliable; not supported here.
    Isochronous,
    /// Large amounts of best-effort data.
    Bulk,
    /// Small amounts of time-critical data.
    Interrupt,
}

/// What an endpoint's descriptor says about it.
#[derive(Clone, Copy, Debug, PartialEq, Eq, Structural)]
pub struct EndpointInfo {
    /// The endpoint address: its number in the low four bits, its direction
    /// in the top one.
    pub addr: u8,
    /// The transfer type.
    pub ep_type: EndpointType,
    /// The largest packet, in bytes.
    pub max_packet_size: u16,
    /// The polling interval, in milliseconds.
    pub interval_ms: u8,
}

/// The speed of a device behind a hub's transaction translator.
#[derive(Clone, Copy, Debug, PartialEq, Eq, Structural)]
pub enum SplitSpeed {
    /// 1.5 Mbit/s.
    Low,
    /// 12 Mbit/s.
    Full,
}

/// The transaction translator a full- or low-speed device sits behind.
#[derive(Clone, Copy, Debug, PartialEq, Eq, Structural)]
pub struct SplitInfo {
    /// The hub's device address.
    pub hub_addr: u8,
    /// The hub's port the device is on, counted from one.
    pub port: u8,
    /// The device's own speed.
    pub device_speed: SplitSpeed,
}

/// Where the host channel sends the split transactions of a pipe.
#[derive(Clone, Copy, Debug, PartialEq, Eq, Structural)]
pub struct SplitTarget {
    /// The hub's device address.
    pub hub_address: u8,
    /// The hub's port the device is on, counted from one.
    pub port: u8,
}

/// The device a pipe talks to, as the host channel wants it.
#[derive(Clone, Copy, Debug, PartialEq, Eq, Structural)]
pub struct ControlEndpoint {
    /// The device address.
    pub address: u8,
    /// Whether the device runs at low speed.
    pub low_speed: bool,
    /// The endpoint's largest packet, in bytes.
    pub max_packet_size: u16,
    /// The translator its transfers are split through, if any.
    pub split: Option<SplitTarget>,
}

/// Why a pipe could not be allocated.
#[derive(Clone, Copy, Debug, PartialEq, Eq)]
pub enum HostError {
    /// Every host channel is taken.
    OutOfPipes,
    /// The endpoint cannot be served, for the reason given.
    Other(&'static str),
}

/// A time span, as whole seconds and the nanoseconds beyond them.
#[derive(Clone, Copy, Debug, PartialEq, Eq, Structural)]
pub struct Timeout {
    /// Whole seconds.
    pub secs: u64,
    /// Nanoseconds beyond them, less than a second's worth.
    pub nanos: u32,
}

impl Timeout {
    /// Whether the nanoseconds are less than a second.
    pub open spec fn wf(self) -> bool {
        self.nanos < 1_000_000_000
    }

    /// The span in whole microseconds, rounded down.
    pub open spec fn micros(self) -> int {
        self.secs * 1_000_000 + self.nanos / 1_000
    }
}

/// How long a control pipe waits out a device that answers NAK.
#[derive(Clone, Copy, Debug, PartialEq, Eq, Structural)]
pub struct TimeoutConfig {
    /// For a transfer with a data stage.
    pub data_timeout: Timeout,
    /// For a transfer without one.
    pub no_data_timeout: Timeout,
}

impl TimeoutConfig {
    /// Whether both spans are well formed.
    pub open spec fn wf(self) -> bool {
        self.data_timeout.wf() && self.no_data_timeout.wf()
    }

    /// Half a second with data, a twentieth of one without.
    pub open spec fn standard() -> TimeoutConfig {
        TimeoutConfig {
            data_timeout: Timeout { secs: 0, nanos: 500_000_000 },
            no_data_timeout: Timeout { secs: 0, nanos: 50_000_000 },
        }
    }
}

/// `embassy_usb_driver::host::TimeoutConfig::default`: 500 ms for a transfer
/// with data, 50 ms for one without.
#[verifier::external_body]
fn default_timeouts() -> (config: TimeoutConfig)
    ensures
        config == TimeoutConfig::standard(),
{
    let config = embassy_usb_driver::host::TimeoutConfig::default();
    TimeoutConfig {
        data_timeout: Timeout {
            secs: config.data_timeout.as_secs(),
            nanos: config.data_timeout.subsec_nanos(),
        },
        no_data_timeout: Timeout {
            secs: config.no_data_timeout.as_secs(),
            nanos: config.no_data_timeout.subsec_nanos(),
        },
    }
}

/// `core::time::Duration::as_micros`: the whole microseconds of a span of
/// `secs` seconds and `nanos` nanoseconds, rounded down.
#[verifier::external_body]
fn duration_micros(secs: u64, nanos: u32) -> (micros: u128)
    requires
        nanos < 1_000_000_000,
    ensures
        micros == secs * 1_000_000 + nanos / 1_000,
{
    core::time::Duration::new(secs, nanos).as_micros()
}

impl Default for TimeoutConfig {
    /// The timeouts a pipe starts out with.
    fn default() -> (config: Self)
        ensures
            config == TimeoutConfig::standard(),
    {
        default_timeouts()
    }
}

/// The largest tick count there is, for a span that is longer.
pub open spec fn saturated(micros: int) -> u64 {
    if micros < u64::MAX {
        micros as u64
    } else {
        u64::MAX
    }
}

/// A time span in ticks, rounded down to whole microseconds. A span too long
/// to count comes out as the longest one there is.
pub fn timeout_duration(timeout: Timeout) -> (ticks: u64)
    requires
        timeout.wf(),
    ensures
        ticks == saturated(timeout.micros()),
{
    let micros: u128 = duration_micros(timeout.secs, timeout.nanos);
    if micros < u64::MAX as u128 {
        ticks::from_micros(micros as u64)
    } else {
        u64::MAX
    }
}

/// One host channel's view of a device endpoint.
///
/// The data toggle and the control timeouts are what changes over its life.
#[derive(Clone, Copy, Debug, PartialEq, Eq, Structural)]
pub struct Dwc2Pipe {
    /// The transfer type of the endpoint.
    pub ep_type: EndpointType,
    /// The device, its speed, its largest packet and its split route.
    pub endpoint: ControlEndpoint,
    /// The endpoint number.
    pub endpoint_number: u8,
    /// Milliseconds between polls of an interrupt endpoint, at least one. A
    /// descriptor that claims none would otherwise mean polling flat out.
    pub interval_ms: u8,
    /// The DATA0/DATA1 toggle, which bulk and interrupt endpoints carry from
    /// one transfer to the next.
    pub toggle: bool,
    /// The control timeouts.
    pub timeout: TimeoutConfig,
}

impl Dwc2Pipe {
    /// What holds of every pipe.
    pub open spec fn wf(self) -> bool {
        &&& self.ep_type != EndpointType::Isochronous
        &&& self.endpoint_number < 16
        &&& self.interval_ms >= 1
        &&& self.timeout.wf()
    }

    /// The ticks a control transfer may take, with or without a data stage.
    pub open spec fn deadline(self, has_data: bool) -> u64 {
        saturated(
            if has_data {
                self.timeout.data_timeout.micros()
            } else {
                self.timeout.no_data_timeout.micros()
            },
        )
    }

    /// The deadline a control transfer gets, in ticks.
    pub fn control_timeout(&self, has_data: bool) -> (ticks: u64)
        requires
            self.wf(),
        ensures
            ticks == self.deadline(has_data),
    {
        timeout_duration(
            if has_data {
                self.timeout.data_timeout
            } else {
                self.timeout.no_data_timeout
            },
        )
    }

    /// Sets how long this control pipe waits out a device that answers NAK.
    pub fn set_timeout(&mut self, timeout: TimeoutConfig)
        ensures
            *final(self) == (Dwc2Pipe { timeout, ..*old(self) }),
    {
        self.timeout = timeout;
    }

    /// Returns the host's data toggle to DATA0, after anything that resets
    /// the device's own.
    pub fn reset_data_toggle(&mut self)
        ensures
            *final(self) == (Dwc2Pipe { toggle: false, ..*old(self) }),
    {
        self.toggle = false;
    }
}

/// A request for a pipe to one device endpoint.
#[derive(Clone, Copy, Debug, PartialEq, Eq, Structural)]
pub struct PipeRequest {
    /// The transfer type the caller wants to use.
    pub pipe_type: EndpointType,
    /// The device address.
    pub addr: u8,
    /// What the endpoint's descriptor says.
    pub endpoint: EndpointInfo,
    /// The translator to go through, or `None` for a device the host reaches
    /// directly.
    pub split: Option<SplitInfo>,
}

impl PipeRequest {
    /// Why this request is refused whatever channels there are, if it is.
    pub open spec fn refusal(self) -> Option<Seq<char>> {
        if self.pipe_type != self.endpoint.ep_type {
            Some("pipe type does not match the endpoint descriptor"@)
        } else if self.endpoint.ep_type == EndpointType::Isochronous {
            Some("isochronous transfers are not supported"@)
        } else {
            None
        }
    }

    /// The pipe this request makes, on a root port running at `port_speed`.
    ///
    /// A device behind a translator has its own speed. One the host reaches
    /// directly runs at whatever the root port negotiated.
    pub open spec fn bound(self, port_speed: u8) -> Dwc2Pipe {
        Dwc2Pipe {
            ep_type: self.endpoint.ep_type,
            endpoint: ControlEndpoint {
                address: self.addr,
                low_speed: match self.split {
                    Some(info) => info.device_speed == SplitSpeed::Low,
                    None => port_speed == PORT_SPEED_LOW,
                },
                max_packet_size: self.endpoint.max_packet_size,
                split: match self.split {
                    Some(info) => Some(
                        SplitTarget { hub_address: info.hub_addr, port: info.port },
                    ),
                    None => None,
                },
            },
            endpoint_number: (self.endpoint.addr % 16) as u8,
            interval_ms: if self.endpoint.interval_ms == 0 {
                1
            } else {
                self.endpoint.interval_ms
            },
            toggle: false,
            timeout: TimeoutConfig::standard(),
        }
    }

    /// Whether the endpoint can be served at all. Asked before a channel is
    /// taken, so a refused request costs none.
    pub fn check_endpoint(&self) -> (accepted: Result<(), HostError>)
        ensures
            match self.refusal() {
                Some(reason) => accepted matches Err(HostError::Other(said)) && said@ == reason,
                None => accepted is Ok,
            },
    {
        if self.pipe_type != self.endpoint.ep_type {
            return Err(HostError::Other("pipe type does not match the endpoint descriptor"));
        }
        if self.endpoint.ep_type == EndpointType::Isochronous {
            return Err(HostError::Other("isochronous transfers are not supported"));
        }
        Ok(())
    }

    /// Whether the root port's speed decides the pipe's, which it does for a
    /// device that is not behind a translator.
    pub fn needs_port_speed(&self) -> (needed: bool)
        ensures
            needed == (self.split is None),
            !needed ==> forall|one: u8, other: u8|
                #![trigger self.bound(one), self.bound(other)]
                self.bound(one) == self.bound(other),
    {
        self.split.is_none()
    }

    /// Binds a channel to the endpoint, given whether one was free.
    ///
    /// Running out of channels is reported rather than queued behind a pipe
    /// that is in use.
    pub fn alloc_pipe(&self, channel_taken: bool, port_speed: u8) -> (pipe: Result<
        Dwc2Pipe,
        HostError,
    >)
        ensures
            match self.refusal() {
                Some(reason) => pipe matches Err(HostError::Other(said)) && said@ == reason,
                None => if channel_taken {
                    pipe == Ok::<Dwc2Pipe, HostError>(self.bound(port_speed))
                } else {
                    pipe == Err::<Dwc2Pipe, HostError>(HostError::OutOfPipes)
                },
            },
            pipe matches Ok(bound) ==> bound.wf(),
    {
        match self.check_endpoint() {
            Err(error) => return Err(error),
            Ok(()) => {},
        }
        if !channel_taken {
            return Err(HostError::OutOfPipes);
        }
        let (low_speed, split) = match self.split {
            Some(info) => (
                info.device_speed == SplitSpeed::Low,
                Some(SplitTarget { hub_address: info.hub_addr, port: info.port }),
            ),
            None => (port_speed == PORT_SPEED_LOW, None),
        };
        let addr: u8 = self.endpoint.addr;
        assert(addr & 0x0f == addr % 16) by (bit_vector);
        Ok(
            Dwc2Pipe {
                ep_type: self.endpoint.ep_type,
                endpoint: ControlEndpoint {
                    address: self.addr,
                    low_speed,
                    max_packet_size: self.endpoint.max_packet_size,
                    split,
                },
                endpoint_number: addr & 0x0f,
                interval_ms: if self.endpoint.interval_ms == 0 {
                    1
                } else {
                    self.endpoint.interval_ms
                },
                toggle: false,
                timeout: TimeoutConfig::default(),
            },
        )
    }
}

/// A pipe goes to the endpoint it was asked for: the number it is bound to
/// is below sixteen and differs from the endpoint address by whole sixteens.
/// So endpoint `n` is bound to `n` in either direction, and in one direction
/// no two endpoints share a number.
pub proof fn law_pipe_goes_to_its_endpoint(
    request: PipeRequest,
    other: PipeRequest,
    n: u8,
    port_speed: u8,
)
    ensures
        request.bound(port_speed).endpoint_number < 16,
        (request.endpoint.addr - request.bound(port_speed).endpoint_number) % 16 == 0,
        n < 16 && (request.endpoint.addr == n || request.endpoint.addr == 0x80 + n)
            ==> request.bound(port_speed).endpoint_number == n,
        request.endpoint.addr < 16 && other.endpoint.addr < 16 && request.endpoint.addr
            != other.endpoint.addr ==> request.bound(port_speed).endpoint_number != other.bound(
            port_speed,
        ).endpoint_number,
        0x80 <= request.endpoint.addr < 0x90 && 0x80 <= other.endpoint.addr < 0x90
            && request.endpoint.addr != other.endpoint.addr ==> request.bound(
            port_speed,
        ).endpoint_number != other.bound(port_speed).endpoint_number,
{
}

/// A pipe talks to the device and by the packets it was asked for, starts on
/// DATA0 with half a second for a transfer with data and a twentieth of one
/// for a transfer without, and is never polled flat out.
pub proof fn law_pipe_is_as_asked_for(request: PipeRequest, port_speed: u8)
    ensures
        ({
            let pipe = request.bound(port_speed);
            &&& pipe.ep_type == request.endpoint.ep_type
            &&& pipe.endpoint.address == request.addr
            &&& pipe.endpoint.max_packet_size == request.endpoint.max_packet_size
            &&& pipe.interval_ms > 0
            &&& request.endpoint.interval_ms > 0 ==> pipe.interval_ms
                == request.endpoint.interval_ms
            &&& request.endpoint.interval_ms == 0 ==> pipe.interval_ms == 1
            &&& !pipe.toggle
            &&& pipe.deadline(true) == 500_000
            &&& pipe.deadline(false) == 50_000
        }),
{
}

/// A device behind a translator runs at its own speed, whatever the root
/// port does, and is reached by the hub and the port it is on. A device that
/// is not runs at the root port's speed, and is reached directly.
pub proof fn law_pipe_speed_is_the_devices(request: PipeRequest, port_speed: u8)
    ensures
        ({
            let endpoint = request.bound(port_speed).endpoint;
            match request.split {
                Some(info) => {
                    &&& endpoint.low_speed <==> info.device_speed is Low
                    &&& endpoint.split matches Some(target) && target.hub_address == info.hub_addr
                        && target.port == info.port
                },
                None => {
                    &&& endpoint.low_speed <==> port_speed == 2
                    &&& endpoint.split is None
                },
            }
        }),
{
}

/// A request is refused for two reasons and no others: a pipe type other
/// than the endpoint's, and of the rest an isochronous endpoint. Each is
/// given its own words.
pub proof fn law_two_kinds_of_endpoint_are_refused(request: PipeRequest)
    ensures
        request.pipe_type != request.endpoint.ep_type ==> request.refusal() == Some(
            "pipe type does not match the endpoint descriptor"@,
        ),
        request.pipe_type == request.endpoint.ep_type && request.endpoint.ep_type is Isochronous
            ==> request.refusal() == Some("isochronous transfers are not supported"@),
        request.pipe_type == request.endpoint.ep_type && !(request.endpoint.ep_type is Isochronous)
            ==> request.refusal() is None,
{
}

/// A control transfer gets its whole timeout, in whole microseconds: the one
/// for transfers with data if it has data, the other if not. No time is
/// added, less than a microsecond is lost, and a timeout past the last
/// instant comes out as the longest there is.
pub proof fn law_deadline_is_the_timeout(pipe: Dwc2Pipe, has_data: bool)
    requires
        pipe.wf(),
    ensures
        ({
            let timeout = if has_data {
                pipe.timeout.data_timeout
            } else {
                pipe.timeout.no_data_timeout
            };
            let nanos = timeout.secs * 1_000_000_000 + timeout.nanos;
            let ticks = pipe.deadline(has_data);
            &&& ticks * 1_000 <= nanos
            &&& ticks < u64::MAX ==> nanos < (ticks + 1) * 1_000
        }),
{
}

/// A longer timeout never gives an earlier deadline.
pub proof fn law_longer_timeouts_end_later(shorter: Timeout, longer: Timeout)
    requires
        shorter.wf(),
        longer.wf(),
        shorter.secs < longer.secs || shorter.secs == longer.secs && shorter.nanos <= longer.nanos,
    ensures
        saturated(shorter.micros()) <= saturated(longer.micros()),
{
}

} // verus!
