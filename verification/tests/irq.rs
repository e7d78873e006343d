use rpi_hal_embassy::irq::{
    dispatch, Bank, Dispatch, DispatchAction, DispatchEvent, Line, Source,
};

fn run(async_drivers: bool, pending: &[Line]) -> (Vec<Line>, Vec<Source>) {
    let mut entry: Dispatch = dispatch(async_drivers);
    let mut polled = Vec::new();
    let mut serviced = Vec::new();
    let mut action = entry.action;
    loop {
        let event = match action {
            DispatchAction::Poll(line) => {
                polled.push(line);
                if pending.contains(&line) {
                    DispatchEvent::Pending
                } else {
                    DispatchEvent::Clear
                }
            }
            DispatchAction::Service(source) => {
                serviced.push(source);
                DispatchEvent::Serviced
            }
            DispatchAction::Done => return (polled, serviced),
        };
        action = entry.step(event);
    }
}

#[test]
fn nothing_pending_services_nothing() {
    let (polled, serviced) = run(true, &[]);
    assert_eq!(
        polled,
        vec![
            Line::Timer1,
            Line::Usb,
            Line::Gpio(Bank::Low),
            Line::Gpio(Bank::Middle),
            Line::Gpio(Bank::High),
            Line::I2c,
            Line::Uart,
            Line::Emmc,
        ]
    );
    assert_eq!(serviced, vec![]);
}

#[test]
fn every_pending_source_is_serviced_timer_first() {
    let everything = [
        Line::Emmc,
        Line::Uart,
        Line::I2c,
        Line::Gpio(Bank::High),
        Line::Usb,
        Line::Timer1,
    ];
    let (_, serviced) = run(true, &everything);
    assert_eq!(
        serviced,
        vec![
            Source::TimeDriver,
            Source::Usb,
            Source::Gpio,
            Source::I2c,
            Source::Uart,
            Source::Sd,
        ]
    );
}

#[test]
fn one_source_does_not_stand_in_for_another() {
    assert_eq!(run(true, &[Line::Uart]).1, vec![Source::Uart]);
    assert_eq!(run(true, &[Line::Emmc, Line::Timer1]).1, vec![Source::TimeDriver, Source::Sd]);
    assert_eq!(run(true, &[Line::I2c]).1, vec![Source::I2c]);
}

#[test]
fn gpio_is_serviced_once_for_any_bank() {
    for bank in [Bank::Low, Bank::Middle, Bank::High] {
        assert_eq!(run(true, &[Line::Gpio(bank)]).1, vec![Source::Gpio]);
    }
    let all = [Line::Gpio(Bank::Low), Line::Gpio(Bank::Middle), Line::Gpio(Bank::High)];
    let (polled, serviced) = run(true, &all);
    assert_eq!(serviced, vec![Source::Gpio]);
    assert!(!polled.contains(&Line::Gpio(Bank::Middle)));
}

#[test]
fn without_async_drivers_only_the_timer_is_asked_about() {
    let (polled, serviced) = run(false, &[Line::Timer1, Line::Usb, Line::Uart]);
    assert_eq!(polled, vec![Line::Timer1]);
    assert_eq!(serviced, vec![Source::TimeDriver]);
    assert_eq!(run(false, &[Line::Usb]).1, vec![]);
}

#[test]
fn banks_are_asked_about_by_their_first_pin() {
    assert_eq!(Bank::Low.pin(), 0);
    assert_eq!(Bank::Middle.pin(), 28);
    assert_eq!(Bank::High.pin(), 46);
}
