use vstd::prelude::*;

use crate::decimal::{decimal, push_decimal};
use crate::error::AcquisitionError;
use crate::text::{parse_u32, same_text, trim_end, trim_end_of, u32_text};

verus! {

/// USB vendor identifier of the headset.
pub const VENDOR_ID: u16 = 0x046d;

/// USB product identifier of the headset.
pub const PRODUCT_ID: u16 = 0x0a87;

/// The model name under which the headset registers its power source.
pub const MODEL_NAME: &'static str = "G935 Gaming Headset";

/// Where the USB devices' attribute directories are.
pub const USB_DEVICES_DIR: &'static str = "/sys/bus/usb/devices/";

/// The interface whose directory holds the link-status file.
pub const INTERFACE_SUFFIX: &'static str = ":1.3";

/// What an enumeration of the attached USB devices tells of one of them.
#[derive(Clone, Debug)]
pub struct UsbDevice {
    pub vendor_id: u16,
    pub product_id: u16,
    pub bus_number: u8,
    pub port_numbers: Vec<u8>,
}

/// One battery reading from the operating system's power-source entry.
#[derive(Clone, Copy, Debug, PartialEq, Eq, Structural)]
pub struct BatteryInfo {
    pub charging: bool,
    pub percentage: u32,
    pub voltage: u32,
}

pub open spec fn is_headset(d: UsbDevice) -> bool {
    d.vendor_id == VENDOR_ID && d.product_id == PRODUCT_ID
}

/// Whether `i` is the first position in `s` that `p` accepts.
pub open spec fn first_match<T>(s: Seq<T>, p: spec_fn(T) -> bool, i: int) -> bool {
    0 <= i < s.len() && p(s[i]) && forall|j: int| 0 <= j < i ==> !p(#[trigger] s[j])
}

/// Port numbers joined by periods.
pub open spec fn joined_ports(p: Seq<u8>) -> Seq<char>
    decreases p.len(),
{
    if p.len() == 0 {
        Seq::empty()
    } else if p.len() == 1 {
        decimal(p[0] as nat)
    } else {
        joined_ports(p.drop_last()) + "."@ + decimal(p.last() as nat)
    }
}

/// The attribute directory of the headset's link interface.
pub open spec fn device_path_of(bus: u8, ports: Seq<u8>) -> Seq<char> {
    USB_DEVICES_DIR@ + decimal(bus as nat) + "-"@ + joined_ports(ports) + INTERFACE_SUFFIX@
}

/// The link state that a trimmed status text states.
pub open spec fn wireless_status_of(t: Seq<char>) -> Result<bool, AcquisitionError> {
    if t == "connected"@ {
        Ok(true)
    } else if t == "disconnected"@ {
        Ok(false)
    } else {
        Err(AcquisitionError::UnexpectedFieldValue)
    }
}

/// The charging state that a trimmed battery-status text states; `None` when
/// the operating system has no valid reading now.
pub open spec fn charging_status_of(t: Seq<char>) -> Result<Option<bool>, AcquisitionError> {
    if t == "Unknown"@ {
        Ok(None)
    } else if t == "Discharging"@ {
        Ok(Some(false))
    } else if t == "Charging"@ {
        Ok(Some(true))
    } else {
        Err(AcquisitionError::UnexpectedFieldValue)
    }
}

/// The reading that the trimmed status, voltage and capacity texts of a
/// power-source entry give.
pub open spec fn battery_fields_of(status: Seq<char>, voltage: Seq<char>, capacity: Seq<char>) -> Result<
    Option<BatteryInfo>,
    AcquisitionError,
> {
    match charging_status_of(status) {
        Err(e) => Err(e),
        Ok(None) => Ok(None),
        Ok(Some(charging)) => match (u32_text(voltage), u32_text(capacity)) {
            (Some(v), Some(p)) => Ok(Some(BatteryInfo { charging, percentage: p, voltage: v })),
            _ => Err(AcquisitionError::UnexpectedFieldValue),
        },
    }
}

/// The reading that the texts of a power-source entry give.
pub open spec fn battery_info_of(status: Seq<char>, voltage: Seq<char>, capacity: Seq<char>) -> Result<
    Option<BatteryInfo>,
    AcquisitionError,
> {
    battery_fields_of(trim_end_of(status), trim_end_of(voltage), trim_end_of(capacity))
}

/// The position of the first attached device with the headset's identifiers.
pub fn find_headset(devices: &Vec<UsbDevice>) -> (r: Option<usize>)
    ensures
        match r {
            Some(i) => first_match(devices@, |d: UsbDevice| is_headset(d), i as int),
            None => forall|j: int| 0 <= j < devices@.len() ==> !is_headset(#[trigger] devices@[j]),
        },
{
    let mut i: usize = 0;
    while i < devices.len()
        invariant
            i <= devices@.len(),
            forall|j: int| 0 <= j < i ==> !is_headset(#[trigger] devices@[j]),
        decreases devices@.len() - i,
    {
        if devices[i].vendor_id == VENDOR_ID && devices[i].product_id == PRODUCT_ID {
            return Some(i);
        }
        i += 1;
    }
    None
}

proof fn lemma_joined_ports_step(p: Seq<u8>, i: int)
    requires
        0 <= i < p.len(),
    ensures
        joined_ports(p.subrange(0, i + 1)) == joined_ports(p.subrange(0, i)) + (if i == 0 {
            Seq::<char>::empty()
        } else {
            "."@
        }) + decimal(p[i] as nat),
{
    let q = p.subrange(0, i + 1);
    assert(q.drop_last() =~= p.subrange(0, i));
    if i == 0 {
        assert(joined_ports(p.subrange(0, 0)) =~= Seq::<char>::empty());
        assert(Seq::<char>::empty() + Seq::<char>::empty() + decimal(p[0] as nat) =~= decimal(
            p[0] as nat,
        ));
    }
}

/// The attribute directory of the link interface of the device on `bus` at
/// the port chain `ports`.
pub fn device_path(bus: u8, ports: &Vec<u8>) -> (r: String)
    ensures
        r@ == device_path_of(bus, ports@),
{
    let mut s = String::from_str(USB_DEVICES_DIR);
    push_decimal(&mut s, bus as u32);
    s.append("-");
    let ghost head = s@;
    let mut i: usize = 0;
    while i < ports.len()
        invariant
            i <= ports@.len(),
            s@ == head + joined_ports(ports@.subrange(0, i as int)),
        decreases ports@.len() - i,
    {
        proof {
            lemma_joined_ports_step(ports@, i as int);
        }
        if i > 0 {
            s.append(".");
        }
        push_decimal(&mut s, ports[i] as u32);
        assert(s@ =~= head + joined_ports(ports@.subrange(0, i as int + 1)));
        i += 1;
    }
    assert(ports@.subrange(0, ports@.len() as int) =~= ports@);
    s.append(INTERFACE_SUFFIX);
    s
}

/// The attribute directory of the headset's link interface, if the headset
/// is among the attached devices.
pub fn get_device_path(devices: &Vec<UsbDevice>) -> (r: Option<String>)
    ensures
        match r {
            Some(p) => exists|i: int|
                first_match(devices@, |d: UsbDevice| is_headset(d), i) && p@ == device_path_of(
                    #[trigger] devices@[i].bus_number,
                    devices@[i].port_numbers@,
                ),
            None => forall|j: int| 0 <= j < devices@.len() ==> !is_headset(#[trigger] devices@[j]),
        },
{
    match find_headset(devices) {
        Some(i) => {
            let p = device_path(devices[i].bus_number, &devices[i].port_numbers);
            assert(first_match(devices@, |d: UsbDevice| is_headset(d), i as int));
            Some(p)
        },
        None => None,
    }
}

/// The link state that a trimmed status text states.
pub fn wireless_status_trimmed(t: &str) -> (r: Result<bool, AcquisitionError>)
    ensures
        r == wireless_status_of(t@),
{
    if same_text(t, "connected") {
        Ok(true)
    } else if same_text(t, "disconnected") {
        Ok(false)
    } else {
        Err(AcquisitionError::UnexpectedFieldValue)
    }
}

/// The link state that the content of the link-status file states.
pub fn wireless_status(text: &str) -> (r: Result<bool, AcquisitionError>)
    ensures
        r == wireless_status_of(trim_end_of(text@)),
{
    wireless_status_trimmed(trim_end(text))
}

/// The charging state that a trimmed battery-status text states.
pub fn charging_status_trimmed(t: &str) -> (r: Result<Option<bool>, AcquisitionError>)
    ensures
        r == charging_status_of(t@),
{
    if same_text(t, "Unknown") {
        Ok(None)
    } else if same_text(t, "Discharging") {
        Ok(Some(false))
    } else if same_text(t, "Charging") {
        Ok(Some(true))
    } else {
        Err(AcquisitionError::UnexpectedFieldValue)
    }
}

/// Whether the model-name text of a power source names the headset.
pub fn is_headset_model(text: &str) -> (r: bool)
    ensures
        r == (trim_end_of(text@) == MODEL_NAME@),
{
    same_text(trim_end(text), MODEL_NAME)
}

/// The position of the first power source whose model name is the headset's.
pub fn find_power_supply(model_names: &Vec<String>) -> (r: Option<usize>)
    ensures
        match r {
            Some(i) => first_match(
                model_names@,
                |m: String| trim_end_of(m@) == MODEL_NAME@,
                i as int,
            ),
            None => forall|j: int|
                0 <= j < model_names@.len() ==> trim_end_of(#[trigger] model_names@[j]@)
                    != MODEL_NAME@,
        },
{
    let mut i: usize = 0;
    while i < model_names.len()
        invariant
            i <= model_names@.len(),
            forall|j: int|
                0 <= j < i ==> trim_end_of(#[trigger] model_names@[j]@) != MODEL_NAME@,
        decreases model_names@.len() - i,
    {
        if is_headset_model(model_names[i].as_str()) {
            return Some(i);
        }
        i += 1;
    }
    None
}

/// The reading that the trimmed status, voltage and capacity texts of the
/// headset's power source give: `Ok(None)` while the status is "Unknown", an
/// error when a field holds a value outside its known set.
pub fn battery_fields(status: &str, voltage: &str, capacity: &str) -> (r: Result<
    Option<BatteryInfo>,
    AcquisitionError,
>)
    ensures
        r == battery_fields_of(status@, voltage@, capacity@),
{
    match charging_status_trimmed(status) {
        Err(e) => Err(e),
        Ok(None) => Ok(None),
        Ok(Some(charging)) => match (parse_u32(voltage), parse_u32(capacity)) {
            (Some(v), Some(p)) => Ok(Some(BatteryInfo { charging, percentage: p, voltage: v })),
            _ => Err(AcquisitionError::UnexpectedFieldValue),
        },
    }
}

/// The reading that the status, voltage and capacity files of the headset's
/// power source hold, trailing white space ignored.
pub fn get_battery(status: &str, voltage: &str, capacity: &str) -> (r: Result<
    Option<BatteryInfo>,
    AcquisitionError,
>)
    ensures
        r == battery_info_of(status@, voltage@, capacity@),
{
    battery_fields(trim_end(status), trim_end(voltage), trim_end(capacity))
}

} // verus!
