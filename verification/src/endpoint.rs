//! Endpoint resolution: from a device's descriptor tree to the ordered list
//! of its endpoints, and from that list to the pair the controller uses.
//!
//! The order of the list is part of the contract. The controller reads
//! from the first endpoint listed and writes to the second.

use crate::error::SetupError;
use vstd::prelude::*;
use vstd::seq_lib::lemma_flatten_concat;

verus! {

/// One communication channel of a device: where it sits in the descriptor
/// tree, and its address.
#[derive(Clone, Copy, Debug, PartialEq, Eq, Structural)]
pub struct Endpoint {
    /// Number of the configuration that holds the endpoint.
    pub config: u8,
    /// Number of its interface.
    pub iface: u8,
    /// Number of the interface's alternate setting.
    pub setting: u8,
    /// Address of the endpoint. Its high bit is set on an endpoint that
    /// carries data from the device to the host.
    pub address: u8,
}

/// An endpoint descriptor, as far as resolution reads it.
#[derive(Clone, Copy, Debug, PartialEq, Eq, Structural)]
pub struct EndpointDescriptor {
    pub address: u8,
}

/// One alternate setting of an interface, with its endpoints in descriptor
/// order.
#[derive(Clone, Debug, PartialEq, Eq)]
pub struct InterfaceDescriptor {
    pub interface_number: u8,
    pub setting_number: u8,
    pub endpoints: Vec<EndpointDescriptor>,
}

/// An interface: its alternate settings in descriptor order.
#[derive(Clone, Debug, PartialEq, Eq)]
pub struct Interface {
    pub descriptors: Vec<InterfaceDescriptor>,
}

/// A configuration: its number and its interfaces in descriptor order.
#[derive(Clone, Debug, PartialEq, Eq)]
pub struct ConfigDescriptor {
    pub number: u8,
    pub interfaces: Vec<Interface>,
}

/// The configurations that a device advertises, by index. An entry is
/// `None` where the configuration could not be read.
#[derive(Clone, Debug, PartialEq, Eq)]
pub struct DeviceDescriptors {
    pub configurations: Vec<Option<ConfigDescriptor>>,
}

/// An alternate setting as a value: numbers and a sequence of endpoints.
pub struct InterfaceDescriptorView {
    pub interface_number: u8,
    pub setting_number: u8,
    pub endpoints: Seq<EndpointDescriptor>,
}

/// An interface as a value.
pub struct InterfaceView {
    pub descriptors: Seq<InterfaceDescriptorView>,
}

/// A configuration as a value.
pub struct ConfigDescriptorView {
    pub number: u8,
    pub interfaces: Seq<InterfaceView>,
}

impl View for InterfaceDescriptor {
    type V = InterfaceDescriptorView;

    open spec fn view(&self) -> InterfaceDescriptorView {
        InterfaceDescriptorView {
            interface_number: self.interface_number,
            setting_number: self.setting_number,
            endpoints: self.endpoints@,
        }
    }
}

impl View for Interface {
    type V = InterfaceView;

    open spec fn view(&self) -> InterfaceView {
        InterfaceView { descriptors: self.descriptors@.map_values(|d: InterfaceDescriptor| d@) }
    }
}

impl View for ConfigDescriptor {
    type V = ConfigDescriptorView;

    open spec fn view(&self) -> ConfigDescriptorView {
        ConfigDescriptorView {
            number: self.number,
            interfaces: self.interfaces@.map_values(|i: Interface| i@),
        }
    }
}

/// An entry of a device's configuration list as a value.
pub open spec fn configuration_view(entry: Option<ConfigDescriptor>) -> Option<
    ConfigDescriptorView,
> {
    match entry {
        Some(config) => Some(config@),
        None => None,
    }
}

impl View for DeviceDescriptors {
    type V = Seq<Option<ConfigDescriptorView>>;

    open spec fn view(&self) -> Seq<Option<ConfigDescriptorView>> {
        self.configurations@.map_values(|c: Option<ConfigDescriptor>| configuration_view(c))
    }
}

/// The endpoint record for an endpoint descriptor found under the given
/// configuration and alternate setting.
pub open spec fn resolve(
    config: u8,
    setting: InterfaceDescriptorView,
    endpoint: EndpointDescriptor,
) -> Endpoint {
    Endpoint {
        config,
        iface: setting.interface_number,
        setting: setting.setting_number,
        address: endpoint.address,
    }
}

/// The endpoints of one alternate setting, in descriptor order.
pub open spec fn setting_endpoints(config: u8, setting: InterfaceDescriptorView) -> Seq<Endpoint> {
    setting.endpoints.map_values(|e: EndpointDescriptor| resolve(config, setting, e))
}

/// The endpoints of one interface: those of its alternate settings, one
/// setting after the other.
pub open spec fn interface_endpoints(config: u8, interface: InterfaceView) -> Seq<Endpoint> {
    interface.descriptors.map_values(
        |d: InterfaceDescriptorView| setting_endpoints(config, d),
    ).flatten()
}

/// The endpoints of one configuration: those of its interfaces, one
/// interface after the other.
pub open spec fn config_endpoints(config: ConfigDescriptorView) -> Seq<Endpoint> {
    config.interfaces.map_values(|i: InterfaceView| interface_endpoints(config.number, i)).flatten()
}

/// The endpoints of an entry of the configuration list: none for a
/// configuration that could not be read.
pub open spec fn entry_endpoints(entry: Option<ConfigDescriptorView>) -> Seq<Endpoint> {
    match entry {
        Some(config) => config_endpoints(config),
        None => Seq::empty(),
    }
}

/// The endpoints of a device: those of its configurations by ascending
/// index, unreadable configurations left out.
pub open spec fn readable_endpoints(device: Seq<Option<ConfigDescriptorView>>) -> Seq<Endpoint> {
    device.map_values(|c: Option<ConfigDescriptorView>| entry_endpoints(c)).flatten()
}

/// Mapping distributes over taking one more element of a sequence.
proof fn lemma_map_take_step<A, B>(s: Seq<A>, f: spec_fn(A) -> B, i: int)
    requires
        0 <= i < s.len(),
    ensures
        s.take(i + 1).map_values(f) == s.take(i).map_values(f).push(f(s[i])),
        s.take(s.len() as int) == s,
        s.take(0).map_values(f) == Seq::<B>::empty(),
{
    assert(s.take(i + 1).map_values(f) =~= s.take(i).map_values(f).push(f(s[i])));
    assert(s.take(s.len() as int) =~= s);
    assert(s.take(0).map_values(f) =~= Seq::<B>::empty());
}

/// Flattening after taking one more element appends that element.
proof fn lemma_flat_take_step<A, B>(s: Seq<A>, f: spec_fn(A) -> Seq<B>, i: int)
    requires
        0 <= i < s.len(),
    ensures
        s.take(i + 1).map_values(f).flatten() == s.take(i).map_values(f).flatten() + f(s[i]),
        s.take(0).map_values(f).flatten() == Seq::<B>::empty(),
{
    lemma_map_take_step(s, f, i);
    s.take(i).map_values(f).lemma_flatten_push(f(s[i]));
    assert(s.take(0).map_values(f).flatten() =~= Seq::<B>::empty());
}

/// Appends the endpoints of one alternate setting to `out`.
fn push_setting_endpoints(out: &mut Vec<Endpoint>, config: u8, setting: &InterfaceDescriptor)
    ensures
        final(out)@ == old(out)@ + setting_endpoints(config, setting@),
{
    let ghost before = out@;
    let ghost f = |e: EndpointDescriptor| resolve(config, setting@, e);
    let mut i: usize = 0;
    while i < setting.endpoints.len()
        invariant
            i <= setting.endpoints.len(),
            f == |e: EndpointDescriptor| resolve(config, setting@, e),
            out@ == before + setting.endpoints@.take(i as int).map_values(f),
        decreases setting.endpoints.len() - i,
    {
        proof {
            lemma_map_take_step(setting.endpoints@, f, i as int);
        }
        out.push(
            Endpoint {
                config,
                iface: setting.interface_number,
                setting: setting.setting_number,
                address: setting.endpoints[i].address,
            },
        );
        i = i + 1;
    }
    proof {
        assert(setting.endpoints@.take(i as int) =~= setting.endpoints@);
        assert(setting.endpoints@.take(0).map_values(f) =~= Seq::<Endpoint>::empty());
    }
}

/// Appends the endpoints of one interface to `out`.
fn push_interface_endpoints(out: &mut Vec<Endpoint>, config: u8, interface: &Interface)
    ensures
        final(out)@ == old(out)@ + interface_endpoints(config, interface@),
{
    let ghost before = out@;
    let ghost f = |d: InterfaceDescriptorView| setting_endpoints(config, d);
    let ghost settings = interface@.descriptors;
    let mut i: usize = 0;
    proof {
        assert(settings.take(0).map_values(f).flatten() =~= Seq::<Endpoint>::empty());
    }
    while i < interface.descriptors.len()
        invariant
            i <= interface.descriptors.len(),
            settings == interface@.descriptors,
            settings.len() == interface.descriptors.len(),
            f == |d: InterfaceDescriptorView| setting_endpoints(config, d),
            out@ == before + settings.take(i as int).map_values(f).flatten(),
        decreases interface.descriptors.len() - i,
    {
        proof {
            lemma_flat_take_step(settings, f, i as int);
        }
        push_setting_endpoints(out, config, &interface.descriptors[i]);
        i = i + 1;
    }
    proof {
        assert(settings.take(i as int) =~= settings);
    }
}

/// Appends the endpoints of one configuration to `out`.
fn push_config_endpoints(out: &mut Vec<Endpoint>, config: &ConfigDescriptor)
    ensures
        final(out)@ == old(out)@ + config_endpoints(config@),
{
    let ghost before = out@;
    let ghost f = |i: InterfaceView| interface_endpoints(config.number, i);
    let ghost interfaces = config@.interfaces;
    let mut i: usize = 0;
    proof {
        assert(interfaces.take(0).map_values(f).flatten() =~= Seq::<Endpoint>::empty());
    }
    while i < config.interfaces.len()
        invariant
            i <= config.interfaces.len(),
            interfaces == config@.interfaces,
            interfaces.len() == config.interfaces.len(),
            f == |i: InterfaceView| interface_endpoints(config.number, i),
            out@ == before + interfaces.take(i as int).map_values(f).flatten(),
        decreases config.interfaces.len() - i,
    {
        proof {
            lemma_flat_take_step(interfaces, f, i as int);
        }
        push_interface_endpoints(out, config.number, &config.interfaces[i]);
        i = i + 1;
    }
    proof {
        assert(interfaces.take(i as int) =~= interfaces);
    }
}

/// Lists every endpoint of a device: configurations by ascending index,
/// then interfaces, alternate settings and endpoints in descriptor order.
/// A configuration that could not be read contributes nothing.
pub fn find_readable_endpoints(device: &DeviceDescriptors) -> (endpoints: Vec<Endpoint>)
    ensures
        endpoints@ == readable_endpoints(device@),
{
    let mut endpoints: Vec<Endpoint> = Vec::new();
    let ghost f = |c: Option<ConfigDescriptorView>| entry_endpoints(c);
    let ghost entries = device@;
    let mut n: usize = 0;
    proof {
        assert(entries.take(0).map_values(f).flatten() =~= Seq::<Endpoint>::empty());
    }
    while n < device.configurations.len()
        invariant
            n <= device.configurations.len(),
            entries == device@,
            entries.len() == device.configurations.len(),
            f == |c: Option<ConfigDescriptorView>| entry_endpoints(c),
            endpoints@ == entries.take(n as int).map_values(f).flatten(),
        decreases device.configurations.len() - n,
    {
        proof {
            lemma_flat_take_step(entries, f, n as int);
        }
        match &device.configurations[n] {
            Some(config) => {
                push_config_endpoints(&mut endpoints, config);
            },
            None => {},
        }
        n = n + 1;
    }
    proof {
        assert(entries.take(n as int) =~= entries);
    }
    endpoints
}

/// Resolution depends on the descriptor data alone: two devices with the
/// same descriptor tree have the same endpoints in the same order.
pub proof fn lemma_resolution_is_deterministic(first: DeviceDescriptors, second: DeviceDescriptors)
    requires
        first@ == second@,
    ensures
        readable_endpoints(first@) == readable_endpoints(second@),
{
}

/// Endpoints come out in the order of the configurations: the endpoints
/// of a list of configurations followed by another are those of the first
/// list followed by those of the second.
pub proof fn lemma_resolution_keeps_configuration_order(
    first: Seq<Option<ConfigDescriptorView>>,
    second: Seq<Option<ConfigDescriptorView>>,
)
    ensures
        readable_endpoints(first + second) == readable_endpoints(first) + readable_endpoints(
            second,
        ),
{
    let f = |c: Option<ConfigDescriptorView>| entry_endpoints(c);
    assert((first + second).map_values(f) =~= first.map_values(f) + second.map_values(f));
    lemma_flatten_concat(first.map_values(f), second.map_values(f));
}

/// The endpoints that the controller works with.
#[derive(Clone, Copy, Debug, PartialEq, Eq, Structural)]
pub struct EndpointSelection {
    /// The endpoint whose configuration, interface and alternate setting
    /// are activated.
    pub configured: Endpoint,
    /// Address that responses are read from.
    pub inbound: u8,
    /// Address that command frames are written to.
    pub outbound: u8,
}

/// The selection that a list of endpoints gives: the first endpoint is
/// configured and read from, the second is written to.
pub open spec fn selection_spec(endpoints: Seq<Endpoint>) -> Result<EndpointSelection, SetupError> {
    if endpoints.len() == 0 {
        Err(SetupError::NoEndpoints)
    } else if endpoints.len() == 1 {
        Err(SetupError::NoOutboundEndpoint)
    } else {
        Ok(
            EndpointSelection {
                configured: endpoints[0],
                inbound: endpoints[0].address,
                outbound: endpoints[1].address,
            },
        )
    }
}

/// Picks the endpoints to use from the resolved list, by position.
pub fn select_endpoints(endpoints: &Vec<Endpoint>) -> (selection: Result<
    EndpointSelection,
    SetupError,
>)
    ensures
        selection == selection_spec(endpoints@),
{
    if endpoints.len() == 0 {
        Err(SetupError::NoEndpoints)
    } else if endpoints.len() == 1 {
        Err(SetupError::NoOutboundEndpoint)
    } else {
        Ok(
            EndpointSelection {
                configured: endpoints[0],
                inbound: endpoints[0].address,
                outbound: endpoints[1].address,
            },
        )
    }
}

} // verus!
