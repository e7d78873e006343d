use rpi_hal_embassy::usb::{
    bulk_buffer_ok, bulk_region_ok, control_result, decode_speed, last_stalled_setup,
    last_stalled_stage, map_error, retryable, retryable_control, timeout_duration, ControlAction,
    ControlData, ControlTransfer, DeviceEvent, Dwc2Pipe, EndpointInfo, EndpointType, HostError,
    PipeError, PipeRequest, PortAction, PortEvent, PortWatch, RequestAction, Speed, SplitInfo,
    SplitSpeed, SplitTarget, Stage, StallRecord, Timeout, TimeoutConfig, TransferError,
    TransferKind,
};

const SETUP: [u8; 8] = [0x80, 0x06, 0x00, 0x01, 0x00, 0x00, 0x12, 0x00];

fn request(ep_type: EndpointType, interval_ms: u8) -> PipeRequest {
    PipeRequest {
        pipe_type: ep_type,
        addr: 5,
        endpoint: EndpointInfo { addr: 0x81, ep_type, max_packet_size: 64, interval_ms },
        split: None,
    }
}

fn pipe(ep_type: EndpointType, interval_ms: u8) -> Dwc2Pipe {
    request(ep_type, interval_ms).alloc_pipe(true, 0).unwrap()
}

#[test]
fn errors_map_to_what_they_mean() {
    assert_eq!(map_error(TransferError::Stall), PipeError::Stall);
    assert_eq!(map_error(TransferError::TransactionError), PipeError::BadResponse);
    assert_eq!(map_error(TransferError::Babble), PipeError::Babble);
    assert_eq!(map_error(TransferError::DataToggleError), PipeError::DataToggleError);
    assert_eq!(map_error(TransferError::Halted), PipeError::BadResponse);
    assert_eq!(map_error(TransferError::FrameOverrun), PipeError::BadResponse);
    assert_eq!(map_error(TransferError::Timeout), PipeError::Timeout);
    assert_eq!(map_error(TransferError::Nak), PipeError::Timeout);
    assert_eq!(map_error(TransferError::NakTimeout), PipeError::Timeout);
}

#[test]
fn flow_control_and_a_dropped_microframe_are_retried() {
    assert!(retryable(TransferError::Nak));
    assert!(retryable(TransferError::FrameOverrun));
    assert!(!retryable(TransferError::DataToggleError));
    assert!(!retryable(TransferError::NakTimeout));
    assert!(!retryable(TransferError::Stall));
}

#[test]
fn a_toggle_error_is_retried_on_a_control_transfer_alone() {
    assert!(retryable_control(TransferError::Nak));
    assert!(retryable_control(TransferError::FrameOverrun));
    assert!(retryable_control(TransferError::DataToggleError));
    assert!(!retryable_control(TransferError::Halted));
    assert!(!retryable_control(TransferError::Timeout));
}

#[test]
fn only_a_stall_is_put_on_record() {
    let mut stalls = StallRecord::new();
    assert_eq!(last_stalled_setup(&stalls), [0; 8]);
    assert_eq!(last_stalled_stage(&stalls), "");
    stalls.note_stall(TransferError::Babble, &SETUP, "DATA");
    assert_eq!(last_stalled_stage(&stalls), "");
    stalls.note_stall(TransferError::Stall, &SETUP, "DATA");
    assert_eq!(last_stalled_setup(&stalls), SETUP);
    assert_eq!(last_stalled_stage(&stalls), "DATA");
}

#[test]
fn spans_become_ticks_rounded_down() {
    assert_eq!(timeout_duration(Timeout { secs: 0, nanos: 0 }), 0);
    assert_eq!(timeout_duration(Timeout { secs: 2, nanos: 500_000_999 }), 2_500_000);
    assert_eq!(timeout_duration(Timeout { secs: 0, nanos: 999 }), 0);
}

#[test]
fn a_span_too_long_to_count_saturates() {
    assert_eq!(timeout_duration(Timeout { secs: u64::MAX, nanos: 999_999_999 }), u64::MAX);
    assert_eq!(
        timeout_duration(Timeout { secs: 18_446_744_073_709, nanos: 551_615_000 }),
        u64::MAX
    );
    assert_eq!(
        timeout_duration(Timeout { secs: 18_446_744_073_709, nanos: 551_614_000 }),
        u64::MAX - 1
    );
}

#[test]
fn standard_timeouts() {
    let config = TimeoutConfig::default();
    assert_eq!(config.data_timeout, Timeout { secs: 0, nanos: 500_000_000 });
    assert_eq!(config.no_data_timeout, Timeout { secs: 0, nanos: 50_000_000 });
}

#[test]
fn a_pipe_takes_everything_fixed_from_the_request() {
    let bound = pipe(EndpointType::Interrupt, 0);
    assert_eq!(bound.ep_type, EndpointType::Interrupt);
    assert_eq!(bound.endpoint.address, 5);
    assert_eq!(bound.endpoint.max_packet_size, 64);
    assert_eq!(bound.endpoint.split, None);
    assert_eq!(bound.endpoint_number, 1);
    assert_eq!(bound.interval_ms, 1);
    assert!(!bound.toggle);
    assert_eq!(bound.timeout, TimeoutConfig::default());
    assert_eq!(pipe(EndpointType::Interrupt, 8).interval_ms, 8);
}

#[test]
fn a_direct_device_runs_at_the_ports_speed() {
    let direct = request(EndpointType::Bulk, 0);
    assert!(direct.needs_port_speed());
    assert!(direct.alloc_pipe(true, 2).unwrap().endpoint.low_speed);
    assert!(!direct.alloc_pipe(true, 1).unwrap().endpoint.low_speed);
}

#[test]
fn a_split_device_runs_at_its_own_speed() {
    let mut split = request(EndpointType::Interrupt, 10);
    split.split = Some(SplitInfo { hub_addr: 2, port: 3, device_speed: SplitSpeed::Low });
    assert!(!split.needs_port_speed());
    let bound = split.alloc_pipe(true, 0).unwrap();
    assert!(bound.endpoint.low_speed);
    assert_eq!(bound.endpoint.split, Some(SplitTarget { hub_address: 2, port: 3 }));
    split.split = Some(SplitInfo { hub_addr: 2, port: 3, device_speed: SplitSpeed::Full });
    assert!(!split.alloc_pipe(true, 2).unwrap().endpoint.low_speed);
}

#[test]
fn endpoints_that_cannot_be_served_are_refused() {
    let mut wrong = request(EndpointType::Bulk, 0);
    wrong.pipe_type = EndpointType::Interrupt;
    assert_eq!(
        wrong.alloc_pipe(true, 0),
        Err(HostError::Other("pipe type does not match the endpoint descriptor"))
    );
    let isochronous = request(EndpointType::Isochronous, 1);
    assert_eq!(
        isochronous.check_endpoint(),
        Err(HostError::Other("isochronous transfers are not supported"))
    );
    assert_eq!(
        isochronous.alloc_pipe(false, 0),
        Err(HostError::Other("isochronous transfers are not supported"))
    );
}

#[test]
fn running_out_of_channels_is_reported() {
    assert_eq!(request(EndpointType::Bulk, 0).check_endpoint(), Ok(()));
    assert_eq!(request(EndpointType::Bulk, 0).alloc_pipe(false, 0), Err(HostError::OutOfPipes));
}

#[test]
fn timeouts_and_toggle_can_be_set() {
    let mut control = pipe(EndpointType::Control, 0);
    assert_eq!(control.control_timeout(true), 500_000);
    assert_eq!(control.control_timeout(false), 50_000);
    control.set_timeout(TimeoutConfig {
        data_timeout: Timeout { secs: 3, nanos: 0 },
        no_data_timeout: Timeout { secs: 0, nanos: 7_000 },
    });
    assert_eq!(control.control_timeout(true), 3_000_000);
    assert_eq!(control.control_timeout(false), 7);
    control.toggle = true;
    control.reset_data_toggle();
    assert!(!control.toggle);
}

#[test]
fn an_arrival_is_reset_before_it_is_reported() {
    let (mut watch, action) = PortWatch::wait_for_device_event();
    assert_eq!(action, PortAction::AwaitChange);
    assert_eq!(watch.step(PortEvent::Changed), PortAction::ReadConnected);
    assert_eq!(watch.step(PortEvent::Connected(true)), PortAction::ResetPort);
    assert_eq!(watch.step(PortEvent::Reset), PortAction::ClearChange);
    assert_eq!(watch.step(PortEvent::ChangeCleared), PortAction::ReadEnabled);
    assert_eq!(watch.step(PortEvent::Enabled(true)), PortAction::ReadSpeed);
    assert_eq!(
        watch.step(PortEvent::SpeedField(1)),
        PortAction::Report(DeviceEvent::Connected(Speed::Full))
    );
}

#[test]
fn a_departure_is_reported_at_once() {
    let (mut watch, _) = PortWatch::wait_for_device_event();
    watch.step(PortEvent::Changed);
    assert_eq!(
        watch.step(PortEvent::Connected(false)),
        PortAction::Report(DeviceEvent::Disconnected)
    );
}

#[test]
fn a_port_that_does_not_come_up_is_swallowed() {
    let (mut watch, _) = PortWatch::wait_for_device_event();
    watch.step(PortEvent::Changed);
    watch.step(PortEvent::Connected(true));
    watch.step(PortEvent::Reset);
    watch.step(PortEvent::ChangeCleared);
    assert_eq!(watch.step(PortEvent::Enabled(false)), PortAction::AwaitChange);
    assert_eq!(watch.step(PortEvent::Changed), PortAction::ReadConnected);
}

#[test]
fn a_bus_reset_reports_the_speed_or_nothing() {
    let (mut watch, action) = PortWatch::bus_reset();
    assert_eq!(action, PortAction::ResetPort);
    assert_eq!(watch.step(PortEvent::Reset), PortAction::ClearChange);
    assert_eq!(watch.step(PortEvent::ChangeCleared), PortAction::ReadEnabled);
    assert_eq!(watch.step(PortEvent::Enabled(false)), PortAction::ResetDone(None));
    let (mut watch, _) = PortWatch::bus_reset();
    watch.step(PortEvent::Reset);
    watch.step(PortEvent::ChangeCleared);
    watch.step(PortEvent::Enabled(true));
    assert_eq!(watch.step(PortEvent::SpeedField(0)), PortAction::ResetDone(Some(Speed::High)));
}

#[test]
fn speed_fields_decode() {
    assert_eq!(decode_speed(2), Speed::Low);
    assert_eq!(decode_speed(1), Speed::Full);
    assert_eq!(decode_speed(0), Speed::High);
    assert_eq!(decode_speed(3), Speed::High);
}

#[test]
fn a_read_ends_with_a_status_out() {
    let mut stalls = StallRecord::new();
    let (mut transfer, action) = ControlTransfer::start(SETUP, ControlData::In);
    assert_eq!(action, ControlAction::Run(Stage::Setup));
    assert_eq!(transfer.step(Ok(8), &mut stalls), ControlAction::Run(Stage::DataIn));
    assert_eq!(transfer.step(Ok(18), &mut stalls), ControlAction::Run(Stage::StatusOut));
    assert_eq!(transfer.step(Ok(0), &mut stalls), ControlAction::Finish(Ok(18)));
}

#[test]
fn a_write_and_a_transfer_without_data_end_with_a_status_in() {
    let mut stalls = StallRecord::new();
    let (mut transfer, _) = ControlTransfer::start(SETUP, ControlData::Out);
    assert_eq!(transfer.step(Ok(8), &mut stalls), ControlAction::Run(Stage::DataOut));
    assert_eq!(transfer.step(Ok(18), &mut stalls), ControlAction::Run(Stage::StatusIn));
    assert_eq!(transfer.step(Ok(0), &mut stalls), ControlAction::Finish(Ok(0)));
    let (mut transfer, _) = ControlTransfer::start(SETUP, ControlData::Absent);
    assert_eq!(transfer.step(Ok(8), &mut stalls), ControlAction::Run(Stage::StatusIn));
    assert_eq!(transfer.step(Ok(0), &mut stalls), ControlAction::Finish(Ok(0)));
}

#[test]
fn a_failed_stage_restarts_from_the_setup() {
    let mut stalls = StallRecord::new();
    let (mut transfer, _) = ControlTransfer::start(SETUP, ControlData::In);
    for error in [TransferError::Nak, TransferError::FrameOverrun, TransferError::DataToggleError]
    {
        assert_eq!(transfer.step(Ok(8), &mut stalls), ControlAction::Run(Stage::DataIn));
        assert_eq!(transfer.step(Ok(5), &mut stalls), ControlAction::Run(Stage::StatusOut));
        assert_eq!(transfer.step(Err(error), &mut stalls), ControlAction::Run(Stage::Setup));
    }
    assert_eq!(transfer.step(Ok(8), &mut stalls), ControlAction::Run(Stage::DataIn));
    assert_eq!(transfer.step(Ok(7), &mut stalls), ControlAction::Run(Stage::StatusOut));
    assert_eq!(transfer.step(Ok(0), &mut stalls), ControlAction::Finish(Ok(7)));
    assert_eq!(last_stalled_stage(&stalls), "");
}

#[test]
fn a_refusal_ends_the_transfer_and_names_its_stage() {
    let mut stalls = StallRecord::new();
    let (mut transfer, _) = ControlTransfer::start(SETUP, ControlData::In);
    assert_eq!(
        transfer.step(Err(TransferError::Stall), &mut stalls),
        ControlAction::Finish(Err(PipeError::Stall))
    );
    assert_eq!(last_stalled_stage(&stalls), "SETUP");
    let (mut transfer, _) = ControlTransfer::start(SETUP, ControlData::In);
    transfer.step(Ok(8), &mut stalls);
    transfer.step(Err(TransferError::Stall), &mut stalls);
    assert_eq!(last_stalled_stage(&stalls), "DATA");
    let (mut transfer, _) = ControlTransfer::start(SETUP, ControlData::Absent);
    transfer.step(Ok(8), &mut stalls);
    transfer.step(Err(TransferError::Stall), &mut stalls);
    assert_eq!(last_stalled_stage(&stalls), "STATUS");
    assert_eq!(last_stalled_setup(&stalls), SETUP);
}

#[test]
fn a_deadline_that_passes_is_a_timeout() {
    assert_eq!(control_result(None), Err(PipeError::Timeout));
    assert_eq!(control_result(Some(Ok(4))), Ok(4));
    assert_eq!(control_result(Some(Err(PipeError::Babble))), Err(PipeError::Babble));
}

#[test]
fn control_transfers_are_capped() {
    let control = pipe(EndpointType::Control, 0);
    assert_eq!(control.control_in(257), Err(PipeError::BufferOverflow));
    assert_eq!(control.control_out(257), Err(PipeError::BufferOverflow));
    assert_eq!(control.control_in(256), Ok((ControlData::In, 500_000)));
    assert_eq!(control.control_out(256), Ok((ControlData::Out, 500_000)));
    assert_eq!(control.control_in(0), Ok((ControlData::Absent, 50_000)));
    assert_eq!(control.control_out(0), Ok((ControlData::Absent, 50_000)));
}

#[test]
fn bulk_buffers_are_whole_cache_lines() {
    assert!(bulk_region_ok(128, 64));
    assert!(bulk_region_ok(0, 0));
    assert!(!bulk_region_ok(130, 64));
    assert!(!bulk_region_ok(128, 65));
    let memory = [0u8; 256];
    let aligned = (0..64).filter(|&start| bulk_buffer_ok(&memory[start..start + 64])).count();
    assert_eq!(aligned, 1);
    let whole = (0..64).filter(|&start| bulk_buffer_ok(&memory[start..start + 63])).count();
    assert_eq!(whole, 0);
}

#[test]
fn buffers_that_cannot_be_used_are_refused() {
    let interrupt = pipe(EndpointType::Interrupt, 8);
    assert!(interrupt.request_in(&[0; 256]).is_ok());
    assert_eq!(interrupt.request_in(&[0; 257]), Err(PipeError::BufferOverflow));
    assert!(interrupt.request_out(&[0; 256], false).is_ok());
    assert_eq!(interrupt.request_out(&[0; 257], false), Err(PipeError::BufferOverflow));
    let bulk = pipe(EndpointType::Bulk, 0);
    assert_eq!(bulk.request_in(&[0; 10]), Err(PipeError::BufferOverflow));
    assert_eq!(bulk.request_out(&[0; 10], true), Err(PipeError::BufferOverflow));
    assert_eq!(bulk.request_in_at(32, 64), Err(PipeError::BufferOverflow));
    assert!(bulk.request_in_at(64, 4096).is_ok());
    let control = pipe(EndpointType::Control, 0);
    assert_eq!(control.request_in(&[]), Err(PipeError::BadResponse));
    assert_eq!(control.request_out(&[], true), Err(PipeError::BadResponse));
    let memory = [0u8; 256];
    let used = (0..64).filter(|&start| bulk.request_in(&memory[start..start + 64]).is_ok()).count();
    assert_eq!(used, 1);
    let written = (0..64)
        .filter(|&start| bulk.request_out(&memory[start..start + 64], false).is_ok())
        .count();
    assert_eq!(written, 1);
}

#[test]
fn a_device_that_is_not_ready_is_asked_again() {
    let mut interrupt = pipe(EndpointType::Interrupt, 8);
    let mut request = interrupt.request_in(&[0; 8]).unwrap();
    assert_eq!(request.first(), RequestAction::Transfer(TransferKind::InterruptIn));
    for _ in 0..3 {
        assert_eq!(
            request.step(&mut interrupt, Err(TransferError::Nak), false),
            RequestAction::PauseThen(8_000, TransferKind::InterruptIn)
        );
    }
    assert_eq!(request.step(&mut interrupt, Ok(8), true), RequestAction::Finish(Ok(8)));
    assert!(interrupt.toggle);

    let mut bulk = pipe(EndpointType::Bulk, 8);
    let mut request = bulk.request_in_at(0, 64).unwrap();
    assert_eq!(request.first(), RequestAction::Transfer(TransferKind::BulkIn));
    assert_eq!(
        request.step(&mut bulk, Err(TransferError::FrameOverrun), true),
        RequestAction::PauseThen(1_000, TransferKind::BulkIn)
    );
    assert!(bulk.toggle);
    assert_eq!(
        request.step(&mut bulk, Err(TransferError::DataToggleError), true),
        RequestAction::Finish(Err(PipeError::DataToggleError))
    );
}

#[test]
fn a_write_on_a_packet_boundary_ends_with_an_empty_packet() {
    let mut bulk = pipe(EndpointType::Bulk, 0);
    let mut request = bulk.request_out_at(0, 128, true).unwrap();
    assert_eq!(request.first(), RequestAction::Transfer(TransferKind::Out));
    assert_eq!(
        request.step(&mut bulk, Ok(128), false),
        RequestAction::Transfer(TransferKind::ZeroLength)
    );
    assert_eq!(
        request.step(&mut bulk, Err(TransferError::Nak), false),
        RequestAction::PauseThen(1_000, TransferKind::ZeroLength)
    );
    assert_eq!(request.step(&mut bulk, Ok(0), true), RequestAction::Finish(Ok(0)));
}

#[test]
fn a_write_off_the_boundary_or_not_asked_to_has_no_empty_packet() {
    let mut interrupt = pipe(EndpointType::Interrupt, 4);
    let mut request = interrupt.request_out(&[0; 65], true).unwrap();
    assert_eq!(
        request.step(&mut interrupt, Err(TransferError::Nak), false),
        RequestAction::PauseThen(4_000, TransferKind::Out)
    );
    assert_eq!(request.step(&mut interrupt, Ok(65), true), RequestAction::Finish(Ok(0)));
    let mut request = interrupt.request_out(&[0; 64], false).unwrap();
    assert_eq!(request.step(&mut interrupt, Ok(64), false), RequestAction::Finish(Ok(0)));
    let mut request = interrupt.request_out(&[], true).unwrap();
    assert_eq!(request.step(&mut interrupt, Ok(0), false), RequestAction::Finish(Ok(0)));
    let mut odd = interrupt;
    odd.endpoint.max_packet_size = 0;
    let mut request = odd.request_out(&[0; 3], true).unwrap();
    assert_eq!(
        request.step(&mut odd, Ok(3), false),
        RequestAction::Transfer(TransferKind::ZeroLength)
    );
}

#[test]
fn where_a_buffer_lies_matters_to_whole_lines_only() {
    let interrupt = pipe(EndpointType::Interrupt, 8);
    assert_eq!(interrupt.request_in_at(1, 64), interrupt.request_in_at(64, 64));
    assert_eq!(interrupt.request_out_at(1, 64, true), interrupt.request_out_at(64, 64, true));
    let bulk = pipe(EndpointType::Bulk, 8);
    assert_eq!(bulk.request_in_at(1, 63), bulk.request_in_at(64, 63));
    assert_ne!(bulk.request_in_at(1, 64), bulk.request_in_at(64, 64));
}
