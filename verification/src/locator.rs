//! The device locator's decisions: classifying enumerated USB devices by
//! the fixed vendor and product ids into the two personalities, picking the
//! boot-keyboard HID collection, and the liveness check over a fresh
//! enumeration. Enumeration itself is I/O and happens outside; every list
//! examined here is handed in as plain values.

use vstd::prelude::*;

use crate::{KINESIS_VID, PROGRAMMING_PID, SAVANT_ELITE_PID};

verus! {

/// The device's two USB personalities, told apart by product id alone.
#[derive(Clone, Copy, PartialEq, Eq, Structural, Debug)]
pub enum Personality {
    /// Normal operation: the device sends keyboard and mouse reports.
    Play,
    /// The physically switched alternate mode that accepts configuration
    /// commands.
    Program,
}

/// One enumerated USB device, as the locator sees it.
#[derive(Debug)]
pub struct DeviceIdentity {
    pub vendor_id: u16,
    pub product_id: u16,
    pub bus_number: u8,
    pub address: u8,
    pub serial: Option<String>,
}

/// The personality a (vendor, product) pair names, if it is this device.
pub open spec fn spec_personality(vendor_id: u16, product_id: u16) -> Option<Personality> {
    if vendor_id == KINESIS_VID && product_id == SAVANT_ELITE_PID {
        Some(Personality::Play)
    } else if vendor_id == KINESIS_VID && product_id == PROGRAMMING_PID {
        Some(Personality::Program)
    } else {
        None
    }
}

/// Classifies a (vendor, product) pair, as [`spec_personality`] does.
pub fn classify(vendor_id: u16, product_id: u16) -> (r: Option<Personality>)
    ensures
        r == spec_personality(vendor_id, product_id),
{
    if vendor_id == KINESIS_VID && product_id == SAVANT_ELITE_PID {
        Some(Personality::Play)
    } else if vendor_id == KINESIS_VID && product_id == PROGRAMMING_PID {
        Some(Personality::Program)
    } else {
        None
    }
}

/// Whether a device shows the requested personality.
pub open spec fn spec_device_matches(d: DeviceIdentity, p: Personality) -> bool {
    spec_personality(d.vendor_id, d.product_id) == Some(p)
}

/// Finds the first enumerated device with the requested personality.
/// Absence is not an error at this layer: callers decide what a `None`
/// means.
pub fn find(devices: &Vec<DeviceIdentity>, personality: Personality) -> (r: Option<usize>)
    ensures
        match r {
            Some(i) => i < devices@.len() && spec_device_matches(devices@[i as int], personality)
                && forall|j: int|
                0 <= j < i ==> !spec_device_matches(devices@[j], personality),
            None => forall|j: int|
                0 <= j < devices@.len() ==> !spec_device_matches(devices@[j], personality),
        },
{
    let n = devices.len();
    let mut i: usize = 0;
    while i < n
        invariant
            i <= n,
            n == devices@.len(),
            forall|j: int| 0 <= j < i ==> !spec_device_matches(devices@[j], personality),
        decreases n - i,
    {
        let d = &devices[i];
        if classify(d.vendor_id, d.product_id) == Some(personality) {
            return Some(i);
        }
        i = i + 1;
    }
    None
}

/// Whether the device at the remembered bus and address still appears in a
/// fresh enumeration: the liveness check between programming steps.
pub fn device_present(devices: &Vec<DeviceIdentity>, bus_number: u8, address: u8) -> (r: bool)
    ensures
        r == exists|j: int|
            0 <= j < devices@.len() && (#[trigger] devices@[j]).bus_number == bus_number
                && devices@[j].address == address,
{
    let n = devices.len();
    let mut i: usize = 0;
    while i < n
        invariant
            i <= n,
            n == devices@.len(),
            forall|j: int|
                0 <= j < i ==> !((#[trigger] devices@[j]).bus_number == bus_number
                    && devices@[j].address == address),
        decreases n - i,
    {
        if devices[i].bus_number == bus_number && devices[i].address == address {
            return true;
        }
        i = i + 1;
    }
    false
}

/// What a scan of the USB bus says about the device's mode.
#[derive(Clone, Copy, PartialEq, Eq, Structural, Debug)]
pub enum ScanOutcome {
    /// A programming-mode device is attached: programming may proceed.
    ProgramFound,
    /// Only a play-mode device is attached: wrong mode, show the switch
    /// guidance instead of attempting any transfer.
    PlayOnly,
    /// No device of this vendor and product pair is attached.
    NotFound,
}

/// The mode-check classification of an enumeration: programming mode wins
/// over play mode, and play mode over absence.
pub open spec fn spec_scan_outcome(devices: Seq<DeviceIdentity>) -> ScanOutcome {
    if exists|j: int|
        0 <= j < devices.len() && spec_device_matches(#[trigger] devices[j], Personality::Program) {
        ScanOutcome::ProgramFound
    } else if exists|j: int|
        0 <= j < devices.len() && spec_device_matches(#[trigger] devices[j], Personality::Play) {
        ScanOutcome::PlayOnly
    } else {
        ScanOutcome::NotFound
    }
}

/// Classifies an enumeration for the mode check, as [`spec_scan_outcome`]
/// does.
pub fn scan_outcome(devices: &Vec<DeviceIdentity>) -> (r: ScanOutcome)
    ensures
        r == spec_scan_outcome(devices@),
{
    match find(devices, Personality::Program) {
        Some(_) => ScanOutcome::ProgramFound,
        None => match find(devices, Personality::Play) {
            Some(_) => ScanOutcome::PlayOnly,
            None => ScanOutcome::NotFound,
        },
    }
}

/// One HID collection of an enumerated device, as the HID layer reports it.
#[derive(Debug)]
pub struct HidDeviceInfo {
    pub vendor_id: u16,
    pub product_id: u16,
    pub usage_page: u16,
    pub usage: u16,
    pub interface_number: i32,
    pub path: String,
    pub serial: Option<String>,
}

/// Whether a HID collection is the play-mode boot-keyboard collection
/// (usage page 0x01, usage 0x06). The device exposes several collections
/// under the same product id, so the usage pair must be filtered too.
pub open spec fn spec_is_keyboard_collection(d: HidDeviceInfo) -> bool {
    d.vendor_id == KINESIS_VID && d.product_id == SAVANT_ELITE_PID && d.usage_page == 0x01
        && d.usage == 0x06
}

/// Finds the first boot-keyboard collection of the play-mode device.
pub fn find_keyboard_interface(list: &Vec<HidDeviceInfo>) -> (r: Option<usize>)
    ensures
        match r {
            Some(i) => i < list@.len() && spec_is_keyboard_collection(list@[i as int])
                && forall|j: int| 0 <= j < i ==> !spec_is_keyboard_collection(list@[j]),
            None => forall|j: int|
                0 <= j < list@.len() ==> !spec_is_keyboard_collection(list@[j]),
        },
{
    let n = list.len();
    let mut i: usize = 0;
    while i < n
        invariant
            i <= n,
            n == list@.len(),
            forall|j: int| 0 <= j < i ==> !spec_is_keyboard_collection(list@[j]),
        decreases n - i,
    {
        let d = &list[i];
        if d.vendor_id == KINESIS_VID && d.product_id == SAVANT_ELITE_PID && d.usage_page == 0x01
            && d.usage == 0x06 {
            return Some(i);
        }
        i = i + 1;
    }
    None
}

/// One HID collection retained by a probe scan.
#[derive(Debug)]
pub struct InterfaceInfo {
    pub interface_number: i32,
    pub usage_page: u16,
    pub usage: u16,
    pub path: String,
}

/// What a protocol probe gathered: the collections of this device, and the
/// responses its probing transfers brought back.
#[derive(Debug)]
pub struct ProbeResult {
    pub device_found: bool,
    pub interfaces: Vec<InterfaceInfo>,
    pub descriptor_response: Option<Vec<u8>>,
    pub feature_reports: Vec<(u8, Vec<u8>)>,
    pub output_responses: Vec<(u8, Vec<u8>)>,
}

/// Whether a HID collection belongs to this device in either personality.
pub open spec fn spec_probe_relevant(d: HidDeviceInfo) -> bool {
    d.vendor_id == KINESIS_VID && (d.product_id == SAVANT_ELITE_PID || d.product_id
        == PROGRAMMING_PID)
}

/// The view of one retained collection.
pub struct InterfaceInfoV {
    pub interface_number: i32,
    pub usage_page: u16,
    pub usage: u16,
    pub path: Seq<char>,
}

/// The view of a retained collection.
pub open spec fn spec_interface_view(i: InterfaceInfo) -> InterfaceInfoV {
    InterfaceInfoV {
        interface_number: i.interface_number,
        usage_page: i.usage_page,
        usage: i.usage,
        path: i.path@,
    }
}

/// The view a probe scan keeps of a relevant collection.
pub open spec fn spec_hid_view(d: HidDeviceInfo) -> InterfaceInfoV {
    InterfaceInfoV {
        interface_number: d.interface_number,
        usage_page: d.usage_page,
        usage: d.usage,
        path: d.path@,
    }
}

/// The collections a probe scan retains, in enumeration order.
pub open spec fn spec_probe_interfaces(list: Seq<HidDeviceInfo>) -> Seq<InterfaceInfoV>
    decreases list.len(),
{
    if list.len() == 0 {
        Seq::<InterfaceInfoV>::empty()
    } else {
        spec_probe_interfaces(list.drop_last()) + (if spec_probe_relevant(list.last()) {
            seq![spec_hid_view(list.last())]
        } else {
            Seq::<InterfaceInfoV>::empty()
        })
    }
}

/// The scanning half of a protocol probe: retains every collection of this
/// device, in order, and reports whether any was found. The probing
/// transfers that fill the response fields run outside and append to the
/// result afterwards.
pub fn probe_scan(list: &Vec<HidDeviceInfo>) -> (r: ProbeResult)
    ensures
        r.interfaces@.map_values(|x: InterfaceInfo| spec_interface_view(x))
            == spec_probe_interfaces(list@),
        r.device_found == (spec_probe_interfaces(list@).len() > 0),
        r.descriptor_response is None,
        r.feature_reports@.len() == 0,
        r.output_responses@.len() == 0,
{
    let n = list.len();
    let mut interfaces: Vec<InterfaceInfo> = Vec::new();
    let mut i: usize = 0;
    while i < n
        invariant
            i <= n,
            n == list@.len(),
            interfaces@.map_values(|x: InterfaceInfo| spec_interface_view(x))
                =~= spec_probe_interfaces(list@.take(i as int)),
        decreases n - i,
    {
        let d = &list[i];
        proof {
            assert(list@.take(i + 1).drop_last() =~= list@.take(i as int));
            assert(list@.take(i + 1).last() == list@[i as int]);
        }
        if d.vendor_id == KINESIS_VID && (d.product_id == SAVANT_ELITE_PID || d.product_id
            == PROGRAMMING_PID) {
            let info = InterfaceInfo {
                interface_number: d.interface_number,
                usage_page: d.usage_page,
                usage: d.usage,
                path: d.path.clone(),
            };
            proof {
                assert(spec_interface_view(info) == spec_hid_view(list@[i as int]));
            }
            interfaces.push(info);
        }
        i = i + 1;
        proof {
            assert(interfaces@.map_values(|x: InterfaceInfo| spec_interface_view(x))
                =~= spec_probe_interfaces(list@.take(i as int)));
        }
    }
    proof {
        assert(list@.take(n as int) =~= list@);
    }
    let device_found = interfaces.len() > 0;
    ProbeResult {
        device_found,
        interfaces,
        descriptor_response: None,
        feature_reports: Vec::new(),
        output_responses: Vec::new(),
    }
}

/// Whether the enumeration shows a programming-mode device: the
/// mode-switch check.
pub fn programming_mode_present(devices: &Vec<DeviceIdentity>) -> (r: bool)
    ensures
        r == (spec_scan_outcome(devices@) == ScanOutcome::ProgramFound),
{
    match find(devices, Personality::Program) {
        Some(_) => true,
        None => false,
    }
}

} // verus!
