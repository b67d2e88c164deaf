use escposify::device::{Absence, File, Flushing, Serial, Step, Usb};
use escposify::descriptor::{
    ConfigDescriptor, Device, Direction, EndpointDescriptor, Interface, InterfaceDescriptor,
};
use escposify::discovery::{find_print_endpoint, Endpoint};
use escposify::session::{
    configure_endpoint, Cause, Error, Reply, Request, Stage, TRANSFER_TIMEOUT_SECS,
};

const LOCATOR: Endpoint = Endpoint { config: 1, iface: 0, setting: 0, address: 0x01 };

fn bound() -> Usb {
    match Usb::new(Some((LOCATOR, 0x04b8, 0x0202)), true, Absence::Fatal) {
        Ok(usb) => usb,
        Err(error) => panic!("construction failed: {:?}", error),
    }
}

fn discarding() -> Usb {
    match Usb::new(None, false, Absence::Tolerated) {
        Ok(usb) => usb,
        Err(error) => panic!("construction failed: {:?}", error),
    }
}

fn pending(step: Step) -> Flushing {
    match step {
        Step::Pending(flushing) => flushing,
        Step::Finished(outcome) => panic!("flush ended early: {:?}", outcome),
    }
}

/// Plays a flush against a device that answers the k-th request with
/// `replies[k]`, and reports every request with the payload it came with.
fn play(usb: &mut Usb, replies: &[Reply]) -> (Vec<(Request, Vec<u8>)>, Result<(), Error>) {
    let mut performed = Vec::new();
    let mut step = usb.flush();
    let mut k = 0;
    loop {
        match step {
            Step::Finished(outcome) => return (performed, outcome),
            Step::Pending(flushing) => {
                performed.push((flushing.request(), flushing.payload().to_vec()));
                step = flushing.advance(replies[k]);
                k += 1;
            }
        }
    }
}

#[test]
fn timeout_is_ten_seconds() {
    assert_eq!(TRANSFER_TIMEOUT_SECS, 10);
}

#[test]
fn construction_binds_to_an_opened_device() {
    let usb = bound();
    assert_eq!(usb.vendor_id(), Some(0x04b8));
    assert_eq!(usb.product_id(), Some(0x0202));
    assert_eq!(usb.write_endpoint(), Some(LOCATOR));
    assert!(usb.pending().is_empty());
}

#[test]
fn construction_fails_when_the_device_cannot_be_opened() {
    for absence in [Absence::Fatal, Absence::Tolerated] {
        let outcome = Usb::new(Some((LOCATOR, 1, 2)), false, absence);
        assert!(matches!(outcome, Err(Error::DeviceUnavailable)));
    }
}

#[test]
fn construction_fails_fast_without_a_printer_when_absence_is_fatal() {
    assert!(matches!(Usb::new(None, false, Absence::Fatal), Err(Error::DeviceUnavailable)));
    assert!(matches!(Usb::new(None, true, Absence::Fatal), Err(Error::DeviceUnavailable)));
}

#[test]
fn construction_tolerates_absence_with_a_discarding_transport() {
    for opened in [false, true] {
        let mut usb = match Usb::new(None, opened, Absence::Tolerated) {
            Ok(usb) => usb,
            Err(error) => panic!("construction failed: {:?}", error),
        };
        assert_eq!(usb.vendor_id(), None);
        assert_eq!(usb.product_id(), None);
        assert_eq!(usb.write_endpoint(), None);
        assert_eq!(usb.write(&[1, 2, 3]), Ok(3));
        assert_eq!(usb.pending(), &[1, 2, 3]);
        assert_eq!(usb.flush(), Step::Finished(Ok(())));
        assert!(usb.pending().is_empty());
    }
}

#[test]
fn bus_without_printer_gives_error_or_discarding_transport() {
    let keyboard = Device {
        vendor_id: 0x046d,
        product_id: 0xc31c,
        configs: vec![Some(ConfigDescriptor {
            number: 1,
            interfaces: vec![Interface {
                descriptors: vec![InterfaceDescriptor {
                    class_code: 3,
                    interface_number: 0,
                    setting_number: 0,
                    endpoints: vec![EndpointDescriptor { address: 0x01, direction: Direction::Out }],
                }],
            }],
        })],
    };
    let found = find_print_endpoint(&[Some(keyboard), None]);
    assert_eq!(found, None);
    assert!(matches!(Usb::new(found, false, Absence::Fatal), Err(Error::DeviceUnavailable)));
    let mut usb = match Usb::new(found, false, Absence::Tolerated) {
        Ok(usb) => usb,
        Err(error) => panic!("construction failed: {:?}", error),
    };
    assert_eq!(usb.write(&[0x1b, 0x40]), Ok(2));
    assert_eq!(usb.flush(), Step::Finished(Ok(())));
    assert!(usb.pending().is_empty());
}

#[test]
fn writes_are_concatenated_in_order() {
    let mut usb = bound();
    assert_eq!(usb.write(&[1, 2]), Ok(2));
    assert_eq!(usb.write(&[]), Ok(0));
    assert_eq!(usb.write(&[3]), Ok(1));
    assert_eq!(usb.write(&[4, 5, 6]), Ok(3));
    assert_eq!(usb.pending(), &[1, 2, 3, 4, 5, 6]);
    assert_eq!(usb.write_endpoint(), Some(LOCATOR));
}

#[test]
fn write_reports_the_full_length() {
    let mut usb = bound();
    let big = vec![0xaa; 70_000];
    assert_eq!(usb.write(&big), Ok(70_000));
    assert_eq!(usb.pending().len(), 70_000);
    assert_eq!(usb.pending(), &big[..]);
}

#[test]
fn flush_empties_the_buffer_at_once() {
    let mut usb = bound();
    assert_eq!(usb.write(&[9, 8, 7]), Ok(3));
    let flushing = pending(usb.flush());
    assert!(usb.pending().is_empty());
    assert_eq!(flushing.payload(), &[9, 8, 7]);
    assert_eq!(flushing.request(), Request::Reset);
    assert_eq!(usb.write_endpoint(), Some(LOCATOR));
}

#[test]
fn scenario_two_writes_then_flush_issue_one_transfer() {
    let printer = Device {
        vendor_id: 0x04b8,
        product_id: 0x0202,
        configs: vec![Some(ConfigDescriptor {
            number: 1,
            interfaces: vec![Interface {
                descriptors: vec![InterfaceDescriptor {
                    class_code: 7,
                    interface_number: 0,
                    setting_number: 0,
                    endpoints: vec![
                        EndpointDescriptor { address: 0x82, direction: Direction::In },
                        EndpointDescriptor { address: 0x01, direction: Direction::Out },
                    ],
                }],
            }],
        })],
    };
    let found = find_print_endpoint(&[Some(printer)]);
    assert_eq!(found, Some((LOCATOR, 0x04b8, 0x0202)));
    let mut usb = match Usb::new(found, true, Absence::Fatal) {
        Ok(usb) => usb,
        Err(error) => panic!("construction failed: {:?}", error),
    };
    assert_eq!(usb.write(&[0x1b, 0x40]), Ok(2));
    assert_eq!(usb.write(&[0x0a]), Ok(1));
    let (performed, outcome) = play(&mut usb, &[Reply::Done; 5]);
    assert_eq!(outcome, Ok(()));
    let payload = vec![0x1b, 0x40, 0x0a];
    assert_eq!(
        performed,
        vec![
            (Request::Reset, payload.clone()),
            (Request::SetActiveConfiguration { config: 1 }, payload.clone()),
            (Request::ClaimInterface { iface: 0 }, payload.clone()),
            (Request::SetAlternateSetting { iface: 0, setting: 0 }, payload.clone()),
            (Request::WriteBulk { endpoint: 0x01, timeout_secs: 10 }, payload.clone()),
        ]
    );
    let transfers = performed
        .iter()
        .filter(|(request, _)| matches!(request, Request::WriteBulk { .. }))
        .count();
    assert_eq!(transfers, 1);
    assert!(usb.pending().is_empty());
}

#[test]
fn scenario_transfer_timeout_then_a_normal_cycle() {
    let mut usb = bound();
    assert_eq!(usb.write(&[1, 2, 3]), Ok(3));
    let (performed, outcome) = play(
        &mut usb,
        &[Reply::Done, Reply::Done, Reply::Done, Reply::Done, Reply::Failed(Cause::Timeout)],
    );
    assert_eq!(outcome, Err(Error::TransferFailed { cause: Cause::Timeout }));
    assert_eq!(performed.len(), 5);
    assert!(usb.pending().is_empty());

    assert_eq!(usb.write(&[4, 5]), Ok(2));
    assert_eq!(usb.pending(), &[4, 5]);
    let (performed, outcome) = play(&mut usb, &[Reply::Done; 5]);
    assert_eq!(outcome, Ok(()));
    assert_eq!(performed.len(), 5);
    assert_eq!(performed[4], (Request::WriteBulk { endpoint: 0x01, timeout_secs: 10 }, vec![4, 5]));
    assert!(usb.pending().is_empty());
}

#[test]
fn flush_uses_every_field_of_the_locator() {
    let locator = Endpoint { config: 3, iface: 5, setting: 2, address: 0x0e };
    let mut usb = match Usb::new(Some((locator, 1, 2)), true, Absence::Tolerated) {
        Ok(usb) => usb,
        Err(error) => panic!("construction failed: {:?}", error),
    };
    assert_eq!(usb.write(&[0xff]), Ok(1));
    let (performed, outcome) = play(&mut usb, &[Reply::Done; 5]);
    assert_eq!(outcome, Ok(()));
    let requests: Vec<Request> = performed.iter().map(|(request, _)| *request).collect();
    assert_eq!(
        requests,
        vec![
            Request::Reset,
            Request::SetActiveConfiguration { config: 3 },
            Request::ClaimInterface { iface: 5 },
            Request::SetAlternateSetting { iface: 5, setting: 2 },
            Request::WriteBulk { endpoint: 0x0e, timeout_secs: 10 },
        ]
    );
}

#[test]
fn flush_of_an_empty_buffer_still_runs_the_protocol() {
    let mut usb = bound();
    let (performed, outcome) = play(&mut usb, &[Reply::Done; 5]);
    assert_eq!(outcome, Ok(()));
    assert_eq!(performed.len(), 5);
    assert_eq!(performed[4], (Request::WriteBulk { endpoint: 0x01, timeout_secs: 10 }, vec![]));
}

#[test]
fn reset_failure_aborts_the_flush_and_drops_the_buffer() {
    let mut usb = bound();
    assert_eq!(usb.write(&[1]), Ok(1));
    let (performed, outcome) = play(&mut usb, &[Reply::Failed(Cause::NoDevice)]);
    assert_eq!(outcome, Err(Error::ResetFailed { cause: Cause::NoDevice }));
    assert_eq!(performed, vec![(Request::Reset, vec![1])]);
    assert!(usb.pending().is_empty());
}

#[test]
fn configuration_failure_names_its_stage() {
    let stages = [Stage::ActivateConfiguration, Stage::ClaimInterface, Stage::SetAlternateSetting];
    for (k, stage) in stages.iter().enumerate() {
        let mut usb = bound();
        assert_eq!(usb.write(&[1, 2]), Ok(2));
        let mut replies = vec![Reply::Done; k + 1];
        replies.push(Reply::Failed(Cause::Busy));
        let (performed, outcome) = play(&mut usb, &replies);
        assert_eq!(outcome, Err(Error::ConfigurationFailed { stage: *stage, cause: Cause::Busy }));
        assert_eq!(performed.len(), k + 2);
        assert!(performed.iter().all(|(request, _)| !matches!(request, Request::WriteBulk { .. })));
        assert!(usb.pending().is_empty());
    }
}

#[test]
fn transfer_failure_carries_its_cause() {
    for cause in [Cause::Timeout, Cause::Pipe, Cause::Io, Cause::NoDevice] {
        let mut usb = bound();
        assert_eq!(usb.write(&[7]), Ok(1));
        let (_, outcome) = play(
            &mut usb,
            &[Reply::Done, Reply::Done, Reply::Done, Reply::Done, Reply::Failed(cause)],
        );
        assert_eq!(outcome, Err(Error::TransferFailed { cause }));
        assert!(usb.pending().is_empty());
    }
}

#[test]
fn transport_stays_usable_after_a_configuration_failure() {
    let mut usb = bound();
    assert_eq!(usb.write(&[1]), Ok(1));
    let (_, outcome) = play(&mut usb, &[Reply::Done, Reply::Failed(Cause::Access)]);
    assert_eq!(
        outcome,
        Err(Error::ConfigurationFailed { stage: Stage::ActivateConfiguration, cause: Cause::Access })
    );
    assert_eq!(usb.write(&[2, 3]), Ok(2));
    let (performed, outcome) = play(&mut usb, &[Reply::Done; 5]);
    assert_eq!(outcome, Ok(()));
    assert_eq!(performed[4].1, vec![2, 3]);
}

#[test]
fn writes_during_a_flush_go_to_the_next_one() {
    let mut usb = bound();
    assert_eq!(usb.write(&[1]), Ok(1));
    let flushing = pending(usb.flush());
    assert_eq!(usb.write(&[2]), Ok(1));
    let flushing = pending(flushing.advance(Reply::Done));
    assert_eq!(flushing.payload(), &[1]);
    assert_eq!(usb.pending(), &[2]);
}

#[test]
fn configuration_runs_its_three_stages_in_order() {
    let locator = Endpoint { config: 4, iface: 2, setting: 6, address: 0x03 };
    assert_eq!(
        configure_endpoint(&locator, None),
        Some((Stage::ActivateConfiguration, Request::SetActiveConfiguration { config: 4 }))
    );
    assert_eq!(
        configure_endpoint(&locator, Some(Stage::ActivateConfiguration)),
        Some((Stage::ClaimInterface, Request::ClaimInterface { iface: 2 }))
    );
    assert_eq!(
        configure_endpoint(&locator, Some(Stage::ClaimInterface)),
        Some((Stage::SetAlternateSetting, Request::SetAlternateSetting { iface: 2, setting: 6 }))
    );
    assert_eq!(configure_endpoint(&locator, Some(Stage::SetAlternateSetting)), None);
}

#[test]
fn file_wraps_and_returns_its_sink() {
    let mut file = File::from(vec![1u8, 2]);
    file.get_mut().push(3);
    assert_eq!(file.into_inner(), vec![1, 2, 3]);
}

#[test]
fn serial_has_no_state() {
    assert_eq!(Serial {}, Serial {});
}
