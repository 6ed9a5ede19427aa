use fanctl::discovery::{
    fan_hub, DeviceIdentity, DeviceScan, ScanCommand, ScanOutcome, ScanStage, ScanState,
    PRODUCT_ID, VENDOR_ID,
};
use fanctl::error::SetupError;

/// Runs a scan against a bus given as (identity in the descriptor, opens) per device.
/// Returns the end of the scan and the operations it asked for.
fn scan(wanted: DeviceIdentity, bus: &[(Option<DeviceIdentity>, bool)]) -> (ScanCommand, Vec<ScanCommand>) {
    let mut scan = DeviceScan::new(wanted, Some(bus.len()));
    let mut asked = Vec::new();
    loop {
        let command = scan.command();
        match command {
            ScanCommand::ReadDescriptor { index } => {
                asked.push(command);
                scan.advance(ScanOutcome::Descriptor { identity: bus[index].0 });
            }
            ScanCommand::OpenDevice { index } => {
                asked.push(command);
                scan.advance(ScanOutcome::Opened { opened: bus[index].1 });
            }
            _ => return (command, asked),
        }
    }
}

fn other() -> DeviceIdentity {
    DeviceIdentity { vendor_id: 0x1d6b, product_id: 0x0002 }
}

#[test]
fn fan_hub_identity_is_fixed() {
    assert_eq!(fan_hub(), DeviceIdentity { vendor_id: 0x264a, product_id: 0x226f });
    assert_eq!(VENDOR_ID, 0x264a);
    assert_eq!(PRODUCT_ID, 0x226f);
}

#[test]
fn no_matching_device_is_device_not_found() {
    let bus = [(Some(other()), true), (Some(DeviceIdentity { vendor_id: 0x264a, product_id: 1 }), true)];
    let (end, asked) = scan(fan_hub(), &bus);
    assert_eq!(end, ScanCommand::GiveUp { error: SetupError::DeviceNotFound });
    assert_eq!(
        asked,
        vec![ScanCommand::ReadDescriptor { index: 0 }, ScanCommand::ReadDescriptor { index: 1 }]
    );
}

#[test]
fn empty_bus_is_device_not_found() {
    let (end, asked) = scan(fan_hub(), &[]);
    assert_eq!(end, ScanCommand::GiveUp { error: SetupError::DeviceNotFound });
    assert!(asked.is_empty());
}

#[test]
fn bus_that_cannot_be_enumerated_is_device_not_found() {
    let scan = DeviceScan::new(fan_hub(), None);
    assert_eq!(scan.command(), ScanCommand::GiveUp { error: SetupError::DeviceNotFound });
}

#[test]
fn first_matching_device_that_opens_is_used() {
    let bus = [(Some(other()), true), (Some(fan_hub()), true), (Some(fan_hub()), true)];
    let (end, asked) = scan(fan_hub(), &bus);
    assert_eq!(end, ScanCommand::Use { index: 1 });
    assert_eq!(
        asked,
        vec![
            ScanCommand::ReadDescriptor { index: 0 },
            ScanCommand::ReadDescriptor { index: 1 },
            ScanCommand::OpenDevice { index: 1 },
        ]
    );
}

#[test]
fn matching_device_that_does_not_open_is_passed_over() {
    let bus = [(Some(fan_hub()), false), (Some(other()), true), (Some(fan_hub()), true)];
    let (end, asked) = scan(fan_hub(), &bus);
    assert_eq!(end, ScanCommand::Use { index: 2 });
    assert_eq!(
        asked,
        vec![
            ScanCommand::ReadDescriptor { index: 0 },
            ScanCommand::OpenDevice { index: 0 },
            ScanCommand::ReadDescriptor { index: 1 },
            ScanCommand::ReadDescriptor { index: 2 },
            ScanCommand::OpenDevice { index: 2 },
        ]
    );
}

#[test]
fn device_with_unreadable_descriptor_is_passed_over() {
    let bus = [(None, true), (Some(fan_hub()), true)];
    let (end, asked) = scan(fan_hub(), &bus);
    assert_eq!(end, ScanCommand::Use { index: 1 });
    assert_eq!(asked.len(), 3);
    assert!(!asked.contains(&ScanCommand::OpenDevice { index: 0 }));
}

#[test]
fn matching_devices_that_do_not_open_are_no_accessible_device() {
    let bus = [(Some(fan_hub()), false), (Some(other()), true), (Some(fan_hub()), false)];
    let (end, _) = scan(fan_hub(), &bus);
    assert_eq!(end, ScanCommand::GiveUp { error: SetupError::NoAccessibleDevice });
    let (end, _) = scan(fan_hub(), &[(Some(fan_hub()), false)]);
    assert_eq!(end, ScanCommand::GiveUp { error: SetupError::NoAccessibleDevice });
}

#[test]
fn vendor_alone_or_product_alone_does_not_match() {
    let bus = [
        (Some(DeviceIdentity { vendor_id: 0x264a, product_id: 0x0001 }), true),
        (Some(DeviceIdentity { vendor_id: 0x0001, product_id: 0x226f }), true),
    ];
    let (end, asked) = scan(fan_hub(), &bus);
    assert_eq!(end, ScanCommand::GiveUp { error: SetupError::DeviceNotFound });
    assert_eq!(asked.len(), 2);
}

#[test]
fn finished_scan_ignores_further_outcomes() {
    let mut scan = DeviceScan::new(fan_hub(), Some(1));
    scan.advance(ScanOutcome::Descriptor { identity: Some(fan_hub()) });
    scan.advance(ScanOutcome::Opened { opened: true });
    let end = scan.state();
    assert_eq!(end.stage, ScanStage::Found { index: 0 });
    scan.advance(ScanOutcome::Opened { opened: false });
    scan.advance(ScanOutcome::Descriptor { identity: None });
    assert_eq!(scan.state(), end);
    assert_eq!(scan.command(), ScanCommand::Use { index: 0 });
}

#[test]
fn scan_outcome_of_wrong_kind_changes_nothing() {
    let mut scan = DeviceScan::new(fan_hub(), Some(2));
    let start = scan.state();
    assert_eq!(
        start,
        ScanState {
            wanted: fan_hub(),
            count: 2,
            refused: false,
            stage: ScanStage::Probe { index: 0 },
        }
    );
    scan.advance(ScanOutcome::Opened { opened: true });
    assert_eq!(scan.state(), start);
    scan.advance(ScanOutcome::Descriptor { identity: Some(fan_hub()) });
    let opening = scan.state();
    assert_eq!(opening.stage, ScanStage::Open { index: 0 });
    scan.advance(ScanOutcome::Descriptor { identity: Some(fan_hub()) });
    assert_eq!(scan.state(), opening);
}

#[test]
fn scan_agrees_with_first_usable_device_on_every_small_bus() {
    // Each device is one of: other identity, unreadable, wanted and opens, wanted and refuses.
    let kinds = [(Some(other()), true), (None, true), (Some(fan_hub()), true), (Some(fan_hub()), false)];
    for len in 0..=4usize {
        for code in 0..4usize.pow(len as u32) {
            let bus: Vec<(Option<DeviceIdentity>, bool)> =
                (0..len).map(|i| kinds[(code / 4usize.pow(i as u32)) % 4]).collect();
            let usable = bus.iter().position(|d| d.0 == Some(fan_hub()) && d.1);
            let any_wanted = bus.iter().any(|d| d.0 == Some(fan_hub()));
            let expected = match usable {
                Some(index) => ScanCommand::Use { index },
                None if any_wanted => ScanCommand::GiveUp { error: SetupError::NoAccessibleDevice },
                None => ScanCommand::GiveUp { error: SetupError::DeviceNotFound },
            };
            assert_eq!(scan(fan_hub(), &bus).0, expected);
        }
    }
}
