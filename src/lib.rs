//! Battery and link status of a wireless headset: parsing of the values the
//! operating system exposes, the device protocol's battery exchange, the
//! classification into display severities and the polling state machine.

pub mod decimal;
pub mod error;
pub mod poll;
pub mod protocol;
pub mod query;
pub mod status;
pub mod sysfs;
pub mod text;

pub use decimal::push_decimal;
pub use error::AcquisitionError;
pub use poll::{Cycle, PollState, ProfileAction};
pub use protocol::{battery_request, parse_battery_response, RawReading};
pub use query::{one_shot, QueryFailure, QueryField};
pub use status::{classify, empty_status, get_i3_status, Severity, StatusRecord};
pub use sysfs::{
    battery_fields, device_path, find_headset, find_power_supply, get_battery, get_device_path,
    is_headset_model, wireless_status, BatteryInfo, UsbDevice,
};
pub use text::same_text;
