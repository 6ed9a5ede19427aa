use fanctl::endpoint::{
    find_readable_endpoints, select_endpoints, ConfigDescriptor, DeviceDescriptors, Endpoint,
    EndpointDescriptor, EndpointSelection, Interface, InterfaceDescriptor,
};
use fanctl::error::SetupError;

fn setting(interface_number: u8, setting_number: u8, addresses: &[u8]) -> InterfaceDescriptor {
    InterfaceDescriptor {
        interface_number,
        setting_number,
        endpoints: addresses.iter().map(|a| EndpointDescriptor { address: *a }).collect(),
    }
}

fn fan_hub_descriptors() -> DeviceDescriptors {
    DeviceDescriptors {
        configurations: vec![Some(ConfigDescriptor {
            number: 1,
            interfaces: vec![Interface { descriptors: vec![setting(0, 0, &[0x81, 0x02])] }],
        })],
    }
}

#[test]
fn one_interface_with_two_endpoints_resolves_in_descriptor_order() {
    let endpoints = find_readable_endpoints(&fan_hub_descriptors());
    assert_eq!(
        endpoints,
        vec![
            Endpoint { config: 1, iface: 0, setting: 0, address: 0x81 },
            Endpoint { config: 1, iface: 0, setting: 0, address: 0x02 },
        ]
    );
    let selection = select_endpoints(&endpoints);
    assert_eq!(
        selection,
        Ok(EndpointSelection {
            configured: Endpoint { config: 1, iface: 0, setting: 0, address: 0x81 },
            inbound: 0x81,
            outbound: 0x02,
        })
    );
}

#[test]
fn resolution_twice_gives_identical_output() {
    let device = fan_hub_descriptors();
    assert_eq!(find_readable_endpoints(&device), find_readable_endpoints(&device));
    assert_eq!(find_readable_endpoints(&device), find_readable_endpoints(&fan_hub_descriptors()));
}

#[test]
fn resolution_walks_configurations_interfaces_settings_and_endpoints_in_order() {
    let device = DeviceDescriptors {
        configurations: vec![
            Some(ConfigDescriptor {
                number: 1,
                interfaces: vec![
                    Interface {
                        descriptors: vec![setting(0, 0, &[0x81]), setting(0, 1, &[0x82, 0x03])],
                    },
                    Interface { descriptors: vec![setting(1, 0, &[])] },
                    Interface { descriptors: vec![setting(2, 0, &[0x04])] },
                ],
            }),
            Some(ConfigDescriptor {
                number: 5,
                interfaces: vec![Interface { descriptors: vec![setting(7, 9, &[0x85, 0x06])] }],
            }),
        ],
    };
    assert_eq!(
        find_readable_endpoints(&device),
        vec![
            Endpoint { config: 1, iface: 0, setting: 0, address: 0x81 },
            Endpoint { config: 1, iface: 0, setting: 1, address: 0x82 },
            Endpoint { config: 1, iface: 0, setting: 1, address: 0x03 },
            Endpoint { config: 1, iface: 2, setting: 0, address: 0x04 },
            Endpoint { config: 5, iface: 7, setting: 9, address: 0x85 },
            Endpoint { config: 5, iface: 7, setting: 9, address: 0x06 },
        ]
    );
}

#[test]
fn unreadable_configuration_is_skipped() {
    let device = DeviceDescriptors {
        configurations: vec![
            None,
            Some(ConfigDescriptor {
                number: 2,
                interfaces: vec![Interface { descriptors: vec![setting(0, 0, &[0x81, 0x02])] }],
            }),
            None,
        ],
    };
    assert_eq!(
        find_readable_endpoints(&device),
        vec![
            Endpoint { config: 2, iface: 0, setting: 0, address: 0x81 },
            Endpoint { config: 2, iface: 0, setting: 0, address: 0x02 },
        ]
    );
}

#[test]
fn device_without_configurations_has_no_endpoints() {
    let device = DeviceDescriptors { configurations: vec![] };
    assert_eq!(find_readable_endpoints(&device), vec![]);
    let unreadable = DeviceDescriptors { configurations: vec![None, None] };
    assert_eq!(find_readable_endpoints(&unreadable), vec![]);
}

#[test]
fn configuration_without_interfaces_has_no_endpoints() {
    let device = DeviceDescriptors {
        configurations: vec![
            Some(ConfigDescriptor { number: 1, interfaces: vec![] }),
            Some(ConfigDescriptor { number: 2, interfaces: vec![Interface { descriptors: vec![] }] }),
        ],
    };
    assert_eq!(find_readable_endpoints(&device), vec![]);
}

#[test]
fn resolution_of_joined_configuration_lists_is_joined_resolution() {
    let first = vec![
        Some(ConfigDescriptor {
            number: 1,
            interfaces: vec![Interface { descriptors: vec![setting(0, 0, &[0x81])] }],
        }),
        None,
    ];
    let second = vec![Some(ConfigDescriptor {
        number: 2,
        interfaces: vec![Interface { descriptors: vec![setting(1, 0, &[0x02, 0x83])] }],
    })];
    let mut joined = first.clone();
    joined.extend(second.clone());
    let mut expected = find_readable_endpoints(&DeviceDescriptors { configurations: first });
    expected.extend(find_readable_endpoints(&DeviceDescriptors { configurations: second }));
    assert_eq!(find_readable_endpoints(&DeviceDescriptors { configurations: joined }), expected);
    assert_eq!(expected.len(), 3);
}

#[test]
fn no_endpoints_is_an_error() {
    assert_eq!(select_endpoints(&vec![]), Err(SetupError::NoEndpoints));
}

#[test]
fn single_endpoint_is_an_error() {
    let endpoints = vec![Endpoint { config: 1, iface: 0, setting: 0, address: 0x81 }];
    assert_eq!(select_endpoints(&endpoints), Err(SetupError::NoOutboundEndpoint));
}

#[test]
fn selection_goes_by_position_not_by_direction() {
    let endpoints = vec![
        Endpoint { config: 1, iface: 0, setting: 0, address: 0x02 },
        Endpoint { config: 1, iface: 1, setting: 3, address: 0x81 },
        Endpoint { config: 1, iface: 2, setting: 0, address: 0x83 },
    ];
    assert_eq!(
        select_endpoints(&endpoints),
        Ok(EndpointSelection {
            configured: Endpoint { config: 1, iface: 0, setting: 0, address: 0x02 },
            inbound: 0x02,
            outbound: 0x81,
        })
    );
}
