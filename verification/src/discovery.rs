//! Device discovery: which of the devices on the bus the controller opens.
//!
//! The scan walks the devices in bus order. It reads the descriptor of each
//! and tries to open those whose identity is the wanted one. The first
//! that opens is used. A device whose descriptor cannot be read, or that
//! does not open, is passed over.

use crate::error::SetupError;
use vstd::prelude::*;

verus! {

/// Vendor identity of the fan hub.
pub const VENDOR_ID: u16 = 0x264a;

/// Product identity of the fan hub.
pub const PRODUCT_ID: u16 = 0x226f;

/// The vendor and product identity of a device.
#[derive(Clone, Copy, Debug, PartialEq, Eq, Structural)]
pub struct DeviceIdentity {
    pub vendor_id: u16,
    pub product_id: u16,
}

/// The identity of the fan hub.
pub fn fan_hub() -> (identity: DeviceIdentity)
    ensures
        identity == (DeviceIdentity { vendor_id: VENDOR_ID, product_id: PRODUCT_ID }),
{
    DeviceIdentity { vendor_id: VENDOR_ID, product_id: PRODUCT_ID }
}

/// Where a scan stands.
#[derive(Clone, Copy, Debug, PartialEq, Eq, Structural)]
pub enum ScanStage {
    /// The descriptor of the device at `index` is to be read.
    Probe { index: usize },
    /// The device at `index` has the wanted identity and is to be opened.
    Open { index: usize },
    /// The device at `index` is open: the scan is over.
    Found { index: usize },
    /// No device can be used: the scan is over.
    Failed { error: SetupError },
}

/// The operation that a scan asks for, or its result.
#[derive(Clone, Copy, Debug, PartialEq, Eq, Structural)]
pub enum ScanCommand {
    /// Read the descriptor of the device at `index`.
    ReadDescriptor { index: usize },
    /// Open the device at `index`.
    OpenDevice { index: usize },
    /// The scan is over: use the device at `index`, which is open.
    Use { index: usize },
    /// The scan is over: no device can be used.
    GiveUp { error: SetupError },
}

/// What came of the operation that a scan asked for.
#[derive(Clone, Copy, Debug, PartialEq, Eq, Structural)]
pub enum ScanOutcome {
    /// The identity in a device's descriptor, or `None` where the
    /// descriptor could not be read.
    Descriptor { identity: Option<DeviceIdentity> },
    /// Whether the device was opened.
    Opened { opened: bool },
}

/// The state of a scan over `count` devices.
#[derive(Clone, Copy, Debug, PartialEq, Eq, Structural)]
pub struct ScanState {
    /// The identity looked for.
    pub wanted: DeviceIdentity,
    /// Number of devices on the bus.
    pub count: usize,
    /// Whether a device with the wanted identity has failed to open.
    pub refused: bool,
    pub stage: ScanStage,
}

impl ScanState {
    /// A stage that names a device names one of the `count` devices.
    pub open spec fn wf(self) -> bool {
        match self.stage {
            ScanStage::Probe { index } => index < self.count,
            ScanStage::Open { index } => index < self.count,
            ScanStage::Found { index } => index < self.count,
            ScanStage::Failed { error } => true,
        }
    }

    /// The state before the first device is looked at. `count` is the
    /// number of devices on the bus, or `None` where the bus could not be
    /// enumerated.
    pub open spec fn initial(wanted: DeviceIdentity, count: Option<usize>) -> ScanState {
        match count {
            Some(n) if n > 0 => ScanState {
                wanted,
                count: n,
                refused: false,
                stage: ScanStage::Probe { index: 0 },
            },
            _ => ScanState {
                wanted,
                count: 0,
                refused: false,
                stage: ScanStage::Failed { error: SetupError::DeviceNotFound },
            },
        }
    }

    /// The error of a scan that has passed over every device.
    pub open spec fn exhausted(refused: bool) -> SetupError {
        if refused {
            SetupError::NoAccessibleDevice
        } else {
            SetupError::DeviceNotFound
        }
    }

    /// The state after the device at `index` has been passed over.
    pub open spec fn pass_over(self, index: usize, refused: bool) -> ScanState {
        if index + 1 < self.count {
            ScanState { refused, stage: ScanStage::Probe { index: (index + 1) as usize }, ..self }
        } else {
            ScanState {
                refused,
                stage: ScanStage::Failed { error: Self::exhausted(refused) },
                ..self
            }
        }
    }

    /// The operation to perform in this state.
    pub open spec fn command(self) -> ScanCommand {
        match self.stage {
            ScanStage::Probe { index } => ScanCommand::ReadDescriptor { index },
            ScanStage::Open { index } => ScanCommand::OpenDevice { index },
            ScanStage::Found { index } => ScanCommand::Use { index },
            ScanStage::Failed { error } => ScanCommand::GiveUp { error },
        }
    }

    /// The state after `outcome`. An outcome of a kind that the stage does
    /// not wait for changes nothing.
    pub open spec fn next(self, outcome: ScanOutcome) -> ScanState {
        match (self.stage, outcome) {
            (ScanStage::Probe { index }, ScanOutcome::Descriptor { identity }) => {
                if identity == Some(self.wanted) {
                    ScanState { stage: ScanStage::Open { index }, ..self }
                } else {
                    self.pass_over(index, self.refused)
                }
            },
            (ScanStage::Open { index }, ScanOutcome::Opened { opened }) => {
                if opened {
                    ScanState { stage: ScanStage::Found { index }, ..self }
                } else {
                    self.pass_over(index, true)
                }
            },
            _ => self,
        }
    }
}

/// A scan of the bus for a device to open.
#[derive(Clone, Copy, Debug)]
pub struct DeviceScan {
    state: ScanState,
}

impl View for DeviceScan {
    type V = ScanState;

    closed spec fn view(&self) -> ScanState {
        self.state
    }
}

impl DeviceScan {
    #[verifier::type_invariant]
    spec fn inv(self) -> bool {
        self.state.wf()
    }

    /// A scan for `wanted` over `count` devices; `None` where the bus
    /// could not be enumerated.
    pub fn new(wanted: DeviceIdentity, count: Option<usize>) -> (scan: DeviceScan)
        ensures
            scan@ == ScanState::initial(wanted, count),
            scan@.wf(),
    {
        match count {
            Some(n) if n > 0 => DeviceScan {
                state: ScanState {
                    wanted,
                    count: n,
                    refused: false,
                    stage: ScanStage::Probe { index: 0 },
                },
            },
            _ => DeviceScan {
                state: ScanState {
                    wanted,
                    count: 0,
                    refused: false,
                    stage: ScanStage::Failed { error: SetupError::DeviceNotFound },
                },
            },
        }
    }

    /// The state of the scan.
    pub fn state(&self) -> (state: ScanState)
        ensures
            state == self@,
            state.wf(),
    {
        proof {
            use_type_invariant(self);
        }
        self.state
    }

    /// The operation to perform next, or the result of the scan.
    pub fn command(&self) -> (command: ScanCommand)
        ensures
            command == self@.command(),
    {
        match self.state.stage {
            ScanStage::Probe { index } => ScanCommand::ReadDescriptor { index },
            ScanStage::Open { index } => ScanCommand::OpenDevice { index },
            ScanStage::Found { index } => ScanCommand::Use { index },
            ScanStage::Failed { error } => ScanCommand::GiveUp { error },
        }
    }

    /// Takes the outcome of the operation last asked for and moves on.
    pub fn advance(&mut self, outcome: ScanOutcome)
        ensures
            final(self)@ == old(self)@.next(outcome),
            final(self)@.wf(),
    {
        proof {
            use_type_invariant(&*self);
        }
        self.state = step(self.state, outcome);
    }
}

/// The state after the device at `index` has been passed over.
fn pass_over(state: ScanState, index: usize, refused: bool) -> (next: ScanState)
    requires
        index < state.count,
    ensures
        next == state.pass_over(index, refused),
        next.wf(),
{
    if index + 1 < state.count {
        ScanState {
            wanted: state.wanted,
            count: state.count,
            refused,
            stage: ScanStage::Probe { index: index + 1 },
        }
    } else {
        let error = if refused {
            SetupError::NoAccessibleDevice
        } else {
            SetupError::DeviceNotFound
        };
        ScanState {
            wanted: state.wanted,
            count: state.count,
            refused,
            stage: ScanStage::Failed { error },
        }
    }
}

/// The state after `outcome`.
fn step(state: ScanState, outcome: ScanOutcome) -> (next: ScanState)
    requires
        state.wf(),
    ensures
        next == state.next(outcome),
        next.wf(),
{
    match (state.stage, outcome) {
        (ScanStage::Probe { index }, ScanOutcome::Descriptor { identity }) => {
            let wanted = match identity {
                Some(found) => found.vendor_id == state.wanted.vendor_id && found.product_id
                    == state.wanted.product_id,
                None => false,
            };
            if wanted {
                ScanState {
                    wanted: state.wanted,
                    count: state.count,
                    refused: state.refused,
                    stage: ScanStage::Open { index },
                }
            } else {
                pass_over(state, index, state.refused)
            }
        },
        (ScanStage::Open { index }, ScanOutcome::Opened { opened }) => {
            if opened {
                ScanState {
                    wanted: state.wanted,
                    count: state.count,
                    refused: state.refused,
                    stage: ScanStage::Found { index },
                }
            } else {
                pass_over(state, index, true)
            }
        },
        _ => state,
    }
}

/// What is on the bus: for each device, the identity in its descriptor
/// (`None` where the descriptor cannot be read) and whether it opens.
pub struct Bus {
    pub descriptors: Seq<Option<DeviceIdentity>>,
    pub opens: Seq<bool>,
}

impl Bus {
    /// Both sequences speak of the same devices, and their number fits
    /// the index type.
    pub open spec fn wf(self) -> bool {
        self.descriptors.len() == self.opens.len() && self.descriptors.len() <= usize::MAX
    }

    /// Whether the device at `index` has the identity `wanted`.
    pub open spec fn is_wanted(self, wanted: DeviceIdentity, index: int) -> bool {
        self.descriptors[index] == Some(wanted)
    }

    /// Whether the device at `index` has the identity `wanted` and opens.
    pub open spec fn is_usable(self, wanted: DeviceIdentity, index: int) -> bool {
        self.is_wanted(wanted, index) && self.opens[index]
    }

    /// The outcome of the operation that `state` asks for.
    pub open spec fn answer(self, state: ScanState) -> ScanOutcome {
        match state.stage {
            ScanStage::Open { index } => ScanOutcome::Opened { opened: self.opens[index as int] },
            ScanStage::Probe { index } => ScanOutcome::Descriptor {
                identity: self.descriptors[index as int],
            },
            _ => ScanOutcome::Opened { opened: false },
        }
    }

    /// The state in which a scan ends when it starts in `state` and each
    /// operation it asks for is answered by this bus.
    pub open spec fn run(self, state: ScanState) -> ScanState
        decreases state.remaining(),
    {
        if state.remaining() == 0 {
            state
        } else {
            self.run(state.next(self.answer(state)))
        }
    }
}

impl ScanState {
    /// An upper bound on the number of operations that the scan still asks
    /// for. It is 0 when the scan is over.
    pub open spec fn remaining(self) -> nat {
        match self.stage {
            ScanStage::Probe { index } => if index < self.count {
                (2 * (self.count - index)) as nat
            } else {
                2
            },
            ScanStage::Open { index } => if index < self.count {
                (2 * (self.count - index) - 1) as nat
            } else {
                1
            },
            ScanStage::Found { index } => 0,
            ScanStage::Failed { error } => 0,
        }
    }
}

/// Every outcome that a scan waits for brings it closer to its end, and a
/// scan that is well formed stays so.
pub proof fn lemma_scan_progresses(state: ScanState, outcome: ScanOutcome)
    ensures
        state.next(outcome) == state || state.next(outcome).remaining() < state.remaining(),
        state.wf() ==> state.next(outcome).wf(),
        state.remaining() == 0 ==> state.next(outcome) == state,
{
}

/// The invariant of a scan in progress against a bus: no device before
/// the current one is usable, and `refused` records whether one of them
/// had the wanted identity.
spec fn scanned(bus: Bus, state: ScanState) -> bool {
    &&& bus.wf()
    &&& state.wf()
    &&& state.count == bus.descriptors.len()
    &&& match state.stage {
        ScanStage::Probe { index } => {
            &&& forall|j: int| 0 <= j < index ==> !bus.is_usable(state.wanted, j)
            &&& state.refused <==> exists|j: int| 0 <= j < index && bus.is_wanted(state.wanted, j)
        },
        ScanStage::Open { index } => {
            &&& forall|j: int| 0 <= j < index ==> !bus.is_usable(state.wanted, j)
            &&& state.refused <==> exists|j: int| 0 <= j < index && bus.is_wanted(state.wanted, j)
            &&& bus.is_wanted(state.wanted, index as int)
        },
        _ => scan_result(bus, state),
    }
}

/// What the final state of a scan says of the bus.
pub open spec fn scan_result(bus: Bus, end: ScanState) -> bool {
    match end.stage {
        ScanStage::Found { index } => {
            &&& index < bus.descriptors.len()
            &&& bus.is_usable(end.wanted, index as int)
            &&& forall|j: int| 0 <= j < index ==> !bus.is_usable(end.wanted, j)
        },
        ScanStage::Failed { error: SetupError::DeviceNotFound } => {
            forall|j: int| 0 <= j < bus.descriptors.len() ==> !bus.is_wanted(end.wanted, j)
        },
        ScanStage::Failed { error: SetupError::NoAccessibleDevice } => {
            &&& exists|j: int| 0 <= j < bus.descriptors.len() && bus.is_wanted(end.wanted, j)
            &&& forall|j: int| 0 <= j < bus.descriptors.len() ==> !bus.is_usable(end.wanted, j)
        },
        _ => false,
    }
}

/// One answered operation keeps the invariant.
proof fn lemma_scanned_step(bus: Bus, state: ScanState)
    requires
        scanned(bus, state),
    ensures
        scanned(bus, state.next(bus.answer(state))),
{
    let next = state.next(bus.answer(state));
    let wanted = state.wanted;
    match state.stage {
        ScanStage::Probe { index } => {
            if bus.descriptors[index as int] == Some(wanted) {
                assert(bus.is_wanted(wanted, index as int));
                assert(next.stage == ScanStage::Open { index });
                assert(next.wanted == wanted);
                assert(next.refused == state.refused);
                assert(next.wf());
                assert(forall|j: int| 0 <= j < index ==> !bus.is_usable(next.wanted, j));
                assert(next.refused <==> exists|j: int| 0 <= j < index && bus.is_wanted(next.wanted, j));
                assert(scanned(bus, next));
            } else {
                assert(!bus.is_wanted(wanted, index as int));
                lemma_passed_over(bus, state, index, state.refused);
                assert(scanned(bus, next));
            }
        },
        ScanStage::Open { index } => {
            if bus.opens[index as int] {
                assert(bus.is_usable(wanted, index as int));
                assert(scanned(bus, next));
            } else {
                assert(!bus.is_usable(wanted, index as int));
                lemma_passed_over(bus, state, index, true);
                assert(scanned(bus, next));
            }
        },
        _ => {},
    }
}

/// Passing over a device that is not usable keeps the invariant.
proof fn lemma_passed_over(bus: Bus, state: ScanState, index: usize, refused: bool)
    requires
        bus.wf(),
        state.count == bus.descriptors.len(),
        index < state.count,
        !bus.is_usable(state.wanted, index as int),
        forall|j: int| 0 <= j < index ==> !bus.is_usable(state.wanted, j),
        state.refused <==> exists|j: int| 0 <= j < index && bus.is_wanted(state.wanted, j),
        refused <==> state.refused || bus.is_wanted(state.wanted, index as int),
    ensures
        scanned(bus, state.pass_over(index, refused)),
{
    let next = state.pass_over(index, refused);
    let wanted = state.wanted;
    let done = index + 1;
    assert forall|j: int| 0 <= j < done implies !bus.is_usable(wanted, j) by {
        if j < index {
        }
    }
    assert(refused <==> exists|j: int| 0 <= j < done && bus.is_wanted(wanted, j)) by {
        if refused {
            if state.refused {
                let j = choose|j: int| 0 <= j < index && bus.is_wanted(wanted, j);
                assert(0 <= j < done && bus.is_wanted(wanted, j));
            } else {
                assert(0 <= index < done && bus.is_wanted(wanted, index as int));
            }
        }
        if exists|j: int| 0 <= j < done && bus.is_wanted(wanted, j) {
            let j = choose|j: int| 0 <= j < done && bus.is_wanted(wanted, j);
            if j < index {
                assert(0 <= j < index && bus.is_wanted(wanted, j));
            }
        }
    }
    assert(next.wanted == wanted && next.refused == refused && next.count == state.count);
    if index + 1 < state.count {
        assert(next.stage == ScanStage::Probe { index: done as usize });
        assert(next.wf());
        assert(forall|j: int| 0 <= j < done ==> !bus.is_usable(next.wanted, j));
        assert(next.refused <==> exists|j: int| 0 <= j < done && bus.is_wanted(next.wanted, j));
    } else {
        assert(done == bus.descriptors.len());
        if refused {
            assert(next.stage == ScanStage::Failed { error: SetupError::NoAccessibleDevice });
            let j = choose|j: int| 0 <= j < done && bus.is_wanted(wanted, j);
            assert(0 <= j < bus.descriptors.len() && bus.is_wanted(next.wanted, j));
            assert(forall|j: int|
                0 <= j < bus.descriptors.len() ==> !bus.is_usable(next.wanted, j));
            assert(scan_result(bus, next));
        } else {
            assert(next.stage == ScanStage::Failed { error: SetupError::DeviceNotFound });
            assert forall|j: int| 0 <= j < bus.descriptors.len() implies !bus.is_wanted(
                wanted,
                j,
            ) by {
                assert(!(0 <= j < done && bus.is_wanted(wanted, j)));
            }
            assert(forall|j: int|
                0 <= j < bus.descriptors.len() ==> !bus.is_wanted(next.wanted, j));
            assert(scan_result(bus, next));
        }
    }
}

/// A scan that is answered by a bus ends in a state that tells the truth
/// about that bus.
proof fn lemma_run_keeps_scanned(bus: Bus, state: ScanState)
    requires
        scanned(bus, state),
    ensures
        scan_result(bus, bus.run(state)),
        bus.run(state).wanted == state.wanted,
    decreases state.remaining(),
{
    if state.remaining() != 0 {
        lemma_scanned_step(bus, state);
        lemma_scan_progresses(state, bus.answer(state));
        lemma_run_keeps_scanned(bus, state.next(bus.answer(state)));
    }
}

/// A scan opens the first device that has the wanted identity and opens.
/// Where there is none, it fails with `NoAccessibleDevice` if some device
/// has the wanted identity, and with `DeviceNotFound` if none has.
pub proof fn lemma_scan_opens_first_usable(bus: Bus, wanted: DeviceIdentity)
    requires
        bus.wf(),
    ensures
        scan_result(
            bus,
            bus.run(ScanState::initial(wanted, Some(bus.descriptors.len() as usize))),
        ),
        bus.run(ScanState::initial(wanted, Some(bus.descriptors.len() as usize))).wanted == wanted,
{
    let start = ScanState::initial(wanted, Some(bus.descriptors.len() as usize));
    lemma_run_keeps_scanned(bus, start);
}

} // verus!
