//! Which pending interrupt lines lead to which handlers.
//!
//! More than one source can be pending on a single entry, and a handler
//! that stops at the first one leaves the others asserting, which re-enters
//! it forever. So every source is asked about on every entry, whatever the
//! ones before it answered ([`law_every_pending_source_is_serviced`]).

use vstd::prelude::*;

verus! {

/// A bank of GPIO pins with an interrupt line of its own.
#[derive(Clone, Copy, Debug, PartialEq, Eq, Structural)]
pub enum Bank {
    /// Pins 0 to 27.
    Low,
    /// Pins 28 to 45.
    Middle,
    /// Pins 46 to 53.
    High,
}

impl Bank {
    /// The first pin of the bank.
    pub open spec fn first_pin(self) -> u8 {
        match self {
            Bank::Low => 0,
            Bank::Middle => 28,
            Bank::High => 46,
        }
    }

    /// A pin to ask the interrupt controller about the bank by.
    pub fn pin(self) -> (pin: u8)
        ensures
            pin == self.first_pin(),
    {
        match self {
            Bank::Low => 0,
            Bank::Middle => 28,
            Bank::High => 46,
        }
    }
}

/// An interrupt line with a pending bit of its own.
#[derive(Clone, Copy, Debug, PartialEq, Eq, Structural)]
pub enum Line {
    /// The System Timer's Compare 1.
    Timer1,
    /// The USB controller.
    Usb,
    /// One bank of GPIO pins.
    Gpio(Bank),
    /// The I2C controllers.
    I2c,
    /// The UART.
    Uart,
    /// The SD controller.
    Emmc,
}

/// Whose interrupt entry point a pending line calls for.
#[derive(Clone, Copy, Debug, PartialEq, Eq, Structural)]
pub enum Source {
    /// This crate's `embassy-time` driver.
    TimeDriver,
    /// The USB host controller driver.
    Usb,
    /// The GPIO edge driver, which finds for itself which pin fired.
    Gpio,
    /// The I2C driver.
    I2c,
    /// The UART driver.
    Uart,
    /// The SD driver.
    Sd,
}

/// What the dispatcher needs done next.
#[derive(Clone, Copy, Debug, PartialEq, Eq, Structural)]
pub enum DispatchAction {
    /// Look at this line's pending bit, and report
    /// [`DispatchEvent::Pending`] or [`DispatchEvent::Clear`].
    Poll(Line),
    /// Call this source's entry point, and report
    /// [`DispatchEvent::Serviced`].
    Service(Source),
    /// Nothing: every line has been seen to.
    Done,
}

/// What came of a [`DispatchAction`].
#[derive(Clone, Copy, Debug, PartialEq, Eq, Structural)]
pub enum DispatchEvent {
    /// The line's pending bit is set.
    Pending,
    /// The line's pending bit is clear.
    Clear,
    /// The entry point has returned.
    Serviced,
}

/// One entry into the interrupt handler.
#[derive(Clone, Copy, Debug, PartialEq, Eq, Structural)]
pub struct Dispatch {
    /// Whether the interrupt-driven drivers are there to be woken. Without
    /// them only the time driver has anything waiting on an interrupt.
    pub async_drivers: bool,
    /// What is being waited for.
    pub action: DispatchAction,
}

/// Which source a line belongs to.
pub open spec fn source_of(line: Line) -> Source {
    match line {
        Line::Timer1 => Source::TimeDriver,
        Line::Usb => Source::Usb,
        Line::Gpio(_) => Source::Gpio,
        Line::I2c => Source::I2c,
        Line::Uart => Source::Uart,
        Line::Emmc => Source::Sd,
    }
}

/// What comes after a source has been seen to.
pub open spec fn after_source(source: Source, async_drivers: bool) -> DispatchAction {
    match source {
        Source::TimeDriver => if async_drivers {
            DispatchAction::Poll(Line::Usb)
        } else {
            DispatchAction::Done
        },
        Source::Usb => DispatchAction::Poll(Line::Gpio(Bank::Low)),
        Source::Gpio => DispatchAction::Poll(Line::I2c),
        Source::I2c => DispatchAction::Poll(Line::Uart),
        Source::Uart => DispatchAction::Poll(Line::Emmc),
        Source::Sd => DispatchAction::Done,
    }
}

/// What comes after a line has been found clear: the next bank where the
/// same source has more of them, the next source otherwise.
pub open spec fn after_clear(line: Line, async_drivers: bool) -> DispatchAction {
    match line {
        Line::Gpio(Bank::Low) => DispatchAction::Poll(Line::Gpio(Bank::Middle)),
        Line::Gpio(Bank::Middle) => DispatchAction::Poll(Line::Gpio(Bank::High)),
        _ => after_source(source_of(line), async_drivers),
    }
}

impl Dispatch {
    /// Whether `event` answers what is being waited for.
    pub open spec fn expects(self, event: DispatchEvent) -> bool {
        match self.action {
            DispatchAction::Poll(_) => event is Pending || event is Clear,
            DispatchAction::Service(_) => event is Serviced,
            DispatchAction::Done => false,
        }
    }

    /// What `event` leads to.
    pub open spec fn answer(self, event: DispatchEvent) -> DispatchAction {
        match self.action {
            DispatchAction::Poll(line) => if event is Pending {
                DispatchAction::Service(source_of(line))
            } else {
                after_clear(line, self.async_drivers)
            },
            DispatchAction::Service(source) => after_source(source, self.async_drivers),
            DispatchAction::Done => DispatchAction::Done,
        }
    }

    /// The dispatcher after `event`.
    pub open spec fn following(self, event: DispatchEvent) -> Dispatch {
        Dispatch { action: self.answer(event), ..self }
    }

    /// How many more events can come, at most.
    pub open spec fn remaining(self) -> nat {
        match self.action {
            DispatchAction::Poll(Line::Timer1) => 14,
            DispatchAction::Service(Source::TimeDriver) => 13,
            DispatchAction::Poll(Line::Usb) => 12,
            DispatchAction::Service(Source::Usb) => 11,
            DispatchAction::Poll(Line::Gpio(Bank::Low)) => 10,
            DispatchAction::Poll(Line::Gpio(Bank::Middle)) => 9,
            DispatchAction::Poll(Line::Gpio(Bank::High)) => 8,
            DispatchAction::Service(Source::Gpio) => 7,
            DispatchAction::Poll(Line::I2c) => 6,
            DispatchAction::Service(Source::I2c) => 5,
            DispatchAction::Poll(Line::Uart) => 4,
            DispatchAction::Service(Source::Uart) => 3,
            DispatchAction::Poll(Line::Emmc) => 2,
            DispatchAction::Service(Source::Sd) => 1,
            DispatchAction::Done => 0,
        }
    }

    /// The sources serviced from here on, in order, where `pending` says
    /// which lines are found pending.
    pub open spec fn services(self, pending: spec_fn(Line) -> bool) -> Seq<Source>
        decreases self.remaining(),
    {
        match self.action {
            DispatchAction::Poll(line) => if pending(line) {
                self.following(DispatchEvent::Pending).services(pending)
            } else {
                self.following(DispatchEvent::Clear).services(pending)
            },
            DispatchAction::Service(source) => seq![source]
                + self.following(DispatchEvent::Serviced).services(pending),
            DispatchAction::Done => Seq::empty(),
        }
    }

    /// Says what follows, given what came of the last action.
    pub fn step(&mut self, event: DispatchEvent) -> (action: DispatchAction)
        requires
            old(self).expects(event),
        ensures
            *final(self) == old(self).following(event),
            action == old(self).answer(event),
            final(self).remaining() < old(self).remaining(),
    {
        let action = match self.action {
            DispatchAction::Poll(line) => match event {
                DispatchEvent::Pending => DispatchAction::Service(line_source(line)),
                _ => match line {
                    Line::Gpio(Bank::Low) => DispatchAction::Poll(Line::Gpio(Bank::Middle)),
                    Line::Gpio(Bank::Middle) => DispatchAction::Poll(Line::Gpio(Bank::High)),
                    _ => next_source(line_source(line), self.async_drivers),
                },
            },
            DispatchAction::Service(source) => next_source(source, self.async_drivers),
            DispatchAction::Done => DispatchAction::Done,
        };
        self.action = action;
        action
    }
}

/// Which source a line belongs to.
fn line_source(line: Line) -> (source: Source)
    ensures
        source == source_of(line),
{
    match line {
        Line::Timer1 => Source::TimeDriver,
        Line::Usb => Source::Usb,
        Line::Gpio(_) => Source::Gpio,
        Line::I2c => Source::I2c,
        Line::Uart => Source::Uart,
        Line::Emmc => Source::Sd,
    }
}

/// What to do once `source` has been seen to.
fn next_source(source: Source, async_drivers: bool) -> (action: DispatchAction)
    ensures
        action == after_source(source, async_drivers),
{
    match source {
        Source::TimeDriver => {
            if async_drivers {
                DispatchAction::Poll(Line::Usb)
            } else {
                DispatchAction::Done
            }
        },
        Source::Usb => DispatchAction::Poll(Line::Gpio(Bank::Low)),
        Source::Gpio => DispatchAction::Poll(Line::I2c),
        Source::I2c => DispatchAction::Poll(Line::Uart),
        Source::Uart => DispatchAction::Poll(Line::Emmc),
        Source::Sd => DispatchAction::Done,
    }
}

/// Starts servicing every interrupt source there is, with the timer first: a
/// deadline that has passed is the thing most likely to have work waiting
/// behind it.
///
/// `async_drivers` says whether the interrupt-driven drivers are in use,
/// which is what the other sources belong to.
pub fn dispatch(async_drivers: bool) -> (dispatch: Dispatch)
    ensures
        dispatch == (Dispatch { async_drivers, action: DispatchAction::Poll(Line::Timer1) }),
{
    Dispatch { async_drivers, action: DispatchAction::Poll(Line::Timer1) }
}

/// Whether a source has a line pending.
pub open spec fn source_pending(source: Source, pending: spec_fn(Line) -> bool) -> bool {
    exists|line: Line| source_of(line) == source && #[trigger] pending(line)
}

/// Whether a source is served at all: the time driver always, the rest where
/// the interrupt-driven drivers are in use.
pub open spec fn source_covered(source: Source, async_drivers: bool) -> bool {
    async_drivers || source == Source::TimeDriver
}

/// The source alone where it is covered and has a line pending, nothing
/// otherwise.
pub open spec fn if_wanted(
    source: Source,
    async_drivers: bool,
    pending: spec_fn(Line) -> bool,
) -> Seq<Source> {
    if source_covered(source, async_drivers) && source_pending(source, pending) {
        seq![source]
    } else {
        Seq::empty()
    }
}

/// A source with one line is serviced if that is pending, and the next one
/// follows either way.
proof fn lemma_one_line(async_drivers: bool, line: Line, pending: spec_fn(Line) -> bool)
    requires
        !(line is Gpio),
        source_covered(source_of(line), async_drivers),
    ensures
        (Dispatch { async_drivers, action: DispatchAction::Poll(line) }).services(pending)
            == if_wanted(source_of(line), async_drivers, pending) + (Dispatch {
            async_drivers,
            action: after_source(source_of(line), async_drivers),
        }).services(pending),
{
    let rest = Dispatch { async_drivers, action: after_source(source_of(line), async_drivers) };
    let service = Dispatch { async_drivers, action: DispatchAction::Service(source_of(line)) };
    assert(source_pending(source_of(line), pending) == pending(line));
    assert(service.services(pending) == seq![source_of(line)] + rest.services(pending));
    assert(Seq::<Source>::empty() + rest.services(pending) =~= rest.services(pending));
}

/// The GPIO banks are asked about until one is pending, which has them all
/// serviced.
proof fn lemma_gpio_banks(async_drivers: bool, pending: spec_fn(Line) -> bool)
    requires
        async_drivers,
    ensures
        (Dispatch {
            async_drivers,
            action: DispatchAction::Poll(Line::Gpio(Bank::Low)),
        }).services(pending) == if_wanted(Source::Gpio, async_drivers, pending) + (Dispatch {
            async_drivers,
            action: DispatchAction::Poll(Line::I2c),
        }).services(pending),
{
    let rest = Dispatch { async_drivers, action: DispatchAction::Poll(Line::I2c) };
    let service = Dispatch { async_drivers, action: DispatchAction::Service(Source::Gpio) };
    let low = Dispatch { async_drivers, action: DispatchAction::Poll(Line::Gpio(Bank::Low)) };
    let middle = Dispatch {
        async_drivers,
        action: DispatchAction::Poll(Line::Gpio(Bank::Middle)),
    };
    let high = Dispatch { async_drivers, action: DispatchAction::Poll(Line::Gpio(Bank::High)) };
    let any = pending(Line::Gpio(Bank::Low)) || pending(Line::Gpio(Bank::Middle)) || pending(
        Line::Gpio(Bank::High),
    );
    if source_pending(Source::Gpio, pending) {
        let line = choose|line: Line| source_of(line) == Source::Gpio && #[trigger] pending(line);
        assert(line == Line::Gpio(Bank::Low) || line == Line::Gpio(Bank::Middle) || line
            == Line::Gpio(Bank::High));
    }
    assert(source_pending(Source::Gpio, pending) == any);
    assert(service.services(pending) == seq![Source::Gpio] + rest.services(pending));
    assert(high.services(pending) == if pending(Line::Gpio(Bank::High)) {
        service.services(pending)
    } else {
        rest.services(pending)
    });
    assert(middle.services(pending) == if pending(Line::Gpio(Bank::Middle)) {
        service.services(pending)
    } else {
        high.services(pending)
    });
    assert(low.services(pending) == if pending(Line::Gpio(Bank::Low)) {
        service.services(pending)
    } else {
        middle.services(pending)
    });
    assert(Seq::<Source>::empty() + rest.services(pending) =~= rest.services(pending));
}

/// Joining from the left and from the right come to the same.
proof fn lemma_joined(
    a: Seq<Source>,
    b: Seq<Source>,
    c: Seq<Source>,
    d: Seq<Source>,
    e: Seq<Source>,
    f: Seq<Source>,
)
    ensures
        a + (b + (c + (d + (e + (f + Seq::<Source>::empty()))))) == a + b + c + d + e + f,
{
    assert(f + Seq::<Source>::empty() =~= f);
    assert(a + (b + (c + (d + (e + f)))) =~= (a + b) + (c + (d + (e + f))));
    assert((a + b) + (c + (d + (e + f))) =~= (a + b + c) + (d + (e + f)));
    assert((a + b + c) + (d + (e + f)) =~= (a + b + c + d) + (e + f));
    assert((a + b + c + d) + (e + f) =~= a + b + c + d + e + f);
}

/// One entry services exactly the covered sources that have a line pending,
/// each once, the timer first, whatever the others are doing.
pub proof fn law_every_pending_source_is_serviced(
    async_drivers: bool,
    pending: spec_fn(Line) -> bool,
)
    ensures
        (Dispatch { async_drivers, action: DispatchAction::Poll(Line::Timer1) }).services(pending)
            == if_wanted(Source::TimeDriver, async_drivers, pending)
            + if_wanted(Source::Usb, async_drivers, pending)
            + if_wanted(Source::Gpio, async_drivers, pending)
            + if_wanted(Source::I2c, async_drivers, pending)
            + if_wanted(Source::Uart, async_drivers, pending)
            + if_wanted(Source::Sd, async_drivers, pending),
{
    let done = Dispatch { async_drivers, action: DispatchAction::Done };
    assert(done.services(pending) == Seq::<Source>::empty());
    lemma_one_line(async_drivers, Line::Timer1, pending);
    if async_drivers {
        lemma_one_line(async_drivers, Line::Usb, pending);
        lemma_gpio_banks(async_drivers, pending);
        lemma_one_line(async_drivers, Line::I2c, pending);
        lemma_one_line(async_drivers, Line::Uart, pending);
        lemma_one_line(async_drivers, Line::Emmc, pending);
    } else {
        let nothing = Seq::<Source>::empty();
        let time = if_wanted(Source::TimeDriver, async_drivers, pending);
        assert(time + nothing =~= time + (nothing + (nothing + (nothing + (nothing + (nothing
            + nothing))))));
    }
    lemma_joined(
        if_wanted(Source::TimeDriver, async_drivers, pending),
        if_wanted(Source::Usb, async_drivers, pending),
        if_wanted(Source::Gpio, async_drivers, pending),
        if_wanted(Source::I2c, async_drivers, pending),
        if_wanted(Source::Uart, async_drivers, pending),
        if_wanted(Source::Sd, async_drivers, pending),
    );
}

/// Each line has its own source called, once and in this order, and no other
/// line does: whatever the rest are doing, a source is called exactly where
/// its line is pending, for GPIO any of the three. Without the
/// interrupt-driven drivers that goes for the timer alone.
pub proof fn law_each_line_calls_its_source(async_drivers: bool, pending: spec_fn(Line) -> bool)
    ensures
        (Dispatch { async_drivers, action: DispatchAction::Poll(Line::Timer1) }).services(pending)
            == called(Source::TimeDriver, pending(Line::Timer1)) + called(
            Source::Usb,
            async_drivers && pending(Line::Usb),
        ) + called(
            Source::Gpio,
            async_drivers && (pending(Line::Gpio(Bank::Low)) || pending(Line::Gpio(Bank::Middle))
                || pending(Line::Gpio(Bank::High))),
        ) + called(Source::I2c, async_drivers && pending(Line::I2c)) + called(
            Source::Uart,
            async_drivers && pending(Line::Uart),
        ) + called(Source::Sd, async_drivers && pending(Line::Emmc)),
{
    law_every_pending_source_is_serviced(async_drivers, pending);
    assert(source_pending(Source::TimeDriver, pending) == pending(Line::Timer1));
    assert(source_pending(Source::Usb, pending) == pending(Line::Usb));
    assert(source_pending(Source::I2c, pending) == pending(Line::I2c));
    assert(source_pending(Source::Uart, pending) == pending(Line::Uart));
    assert(source_pending(Source::Sd, pending) == pending(Line::Emmc));
    if source_pending(Source::Gpio, pending) {
        let line = choose|line: Line| source_of(line) == Source::Gpio && #[trigger] pending(line);
        assert(line == Line::Gpio(Bank::Low) || line == Line::Gpio(Bank::Middle) || line
            == Line::Gpio(Bank::High));
    }
}

/// A source alone where it is called, nothing otherwise.
pub open spec fn called(source: Source, calls: bool) -> Seq<Source> {
    if calls {
        seq![source]
    } else {
        Seq::empty()
    }
}

/// Every source whose turn comes is asked about, and a line that is found
/// pending has its source called next and not asked about again.
pub proof fn law_pending_line_is_serviced_at_once(dispatch: Dispatch, line: Line)
    requires
        dispatch.action == DispatchAction::Poll(line),
    ensures
        dispatch.expects(DispatchEvent::Pending),
        dispatch.expects(DispatchEvent::Clear),
        !dispatch.expects(DispatchEvent::Serviced),
        ({
            let called = dispatch.following(DispatchEvent::Pending);
            &&& called.async_drivers == dispatch.async_drivers
            &&& called.expects(DispatchEvent::Serviced)
            &&& called.action == DispatchAction::Service(
                match line {
                    Line::Timer1 => Source::TimeDriver,
                    Line::Usb => Source::Usb,
                    Line::Gpio(_) => Source::Gpio,
                    Line::I2c => Source::I2c,
                    Line::Uart => Source::Uart,
                    Line::Emmc => Source::Sd,
                },
            )
        }),
        dispatch.following(DispatchEvent::Clear).async_drivers == dispatch.async_drivers,
        !(dispatch.following(DispatchEvent::Clear).action is Service),
{
}

/// A bank is asked about by a pin of its own: 0 to 27, 28 to 45, 46 to 53.
pub proof fn law_bank_is_asked_about_by_its_own_pin(bank: Bank)
    ensures
        bank is Low <==> bank.first_pin() < 28,
        bank is Middle <==> 28 <= bank.first_pin() < 46,
        bank is High <==> 46 <= bank.first_pin() < 54,
{
}

} // verus!
