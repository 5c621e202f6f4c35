use vstd::prelude::*;

use crate::decimal::{decimal, push_decimal};
use crate::error::AcquisitionError;
use crate::sysfs::BatteryInfo;

verus! {

/// The battery field that a one-shot query prints.
#[derive(Clone, Copy, Debug, PartialEq, Eq, Structural)]
pub enum QueryField {
    Voltage,
    Percentage,
}

/// Why a one-shot query printed no reading.
#[derive(Clone, Copy, Debug, PartialEq, Eq, Structural)]
pub enum QueryFailure {
    /// The link state or the battery could not be read.
    Device(AcquisitionError),
    /// The operating system has no battery reading of the headset now.
    BatteryUnavailable,
    /// The headset is not connected to its receiver.
    Disconnected,
}

/// The value of the queried field.
pub open spec fn field_value(b: BatteryInfo, field: QueryField) -> u32 {
    match field {
        QueryField::Voltage => b.voltage,
        QueryField::Percentage => b.percentage,
    }
}

/// What a successful query prints: the field on a line, then the charging
/// flag as `Charging: 0` or `Charging: 1`.
pub open spec fn query_text(b: BatteryInfo, field: QueryField) -> Seq<char> {
    decimal(field_value(b, field) as nat) + "\n"@ + "Charging: "@ + (if b.charging {
        "1"@
    } else {
        "0"@
    }) + "\n"@
}

/// The outcome of a query on a link state and a battery reading.
pub open spec fn query_of(
    wireless: Result<bool, AcquisitionError>,
    battery: Result<Option<BatteryInfo>, AcquisitionError>,
    field: QueryField,
) -> Result<Seq<char>, QueryFailure> {
    match wireless {
        Err(e) => Err(QueryFailure::Device(e)),
        Ok(connected) => match battery {
            Err(e) => Err(QueryFailure::Device(e)),
            Ok(None) => Err(QueryFailure::BatteryUnavailable),
            Ok(Some(b)) => if connected {
                Ok(query_text(b, field))
            } else {
                Err(QueryFailure::Disconnected)
            },
        },
    }
}

/// A query without the headset prints nothing and fails with the missing
/// device, whatever the battery reading and the field asked for.
pub proof fn lemma_missing_device_fails(
    battery: Result<Option<BatteryInfo>, AcquisitionError>,
    field: QueryField,
)
    ensures
        query_of(Err(AcquisitionError::DeviceNotFound), battery, field) == Err::<
            Seq<char>,
            QueryFailure,
        >(QueryFailure::Device(AcquisitionError::DeviceNotFound)),
{
}

/// One query: the text to print, or why there is none.
pub fn one_shot(
    wireless: Result<bool, AcquisitionError>,
    battery: Result<Option<BatteryInfo>, AcquisitionError>,
    field: QueryField,
) -> (r: Result<String, QueryFailure>)
    ensures
        match r {
            Ok(s) => query_of(wireless, battery, field) == Ok::<Seq<char>, QueryFailure>(s@),
            Err(e) => query_of(wireless, battery, field) == Err::<Seq<char>, QueryFailure>(e),
        },
{
    match wireless {
        Err(e) => Err(QueryFailure::Device(e)),
        Ok(connected) => match battery {
            Err(e) => Err(QueryFailure::Device(e)),
            Ok(None) => Err(QueryFailure::BatteryUnavailable),
            Ok(Some(b)) => {
                if connected {
                    let mut s = String::new();
                    let v = match field {
                        QueryField::Voltage => b.voltage,
                        QueryField::Percentage => b.percentage,
                    };
                    push_decimal(&mut s, v);
                    s.append("\n");
                    s.append("Charging: ");
                    s.append(
                        if b.charging {
                            "1"
                        } else {
                            "0"
                        },
                    );
                    s.append("\n");
                    Ok(s)
                } else {
                    Err(QueryFailure::Disconnected)
                }
            },
        },
    }
}

impl QueryFailure {
    /// The status with which the process ends after a failed query.
    pub fn exit_code(&self) -> (r: i32)
        ensures
            r == 1,
    {
        1
    }

    /// The message printed on the error stream.
    pub fn message(&self) -> (r: &'static str)
        ensures
            r@ == failure_message(*self),
    {
        match self {
            QueryFailure::Device(AcquisitionError::DeviceNotFound) => "usb device not found",
            QueryFailure::Device(AcquisitionError::ReadTimeout) => "headset did not answer",
            QueryFailure::Device(AcquisitionError::UnexpectedFieldValue) => "unknown device status",
            QueryFailure::Device(AcquisitionError::IoFailure) => "could not read device status",
            QueryFailure::BatteryUnavailable => "battery not found",
            QueryFailure::Disconnected => "Wireless connection disconnected.",
        }
    }
}

/// The message of each failure.
pub open spec fn failure_message(f: QueryFailure) -> Seq<char> {
    match f {
        QueryFailure::Device(AcquisitionError::DeviceNotFound) => "usb device not found"@,
        QueryFailure::Device(AcquisitionError::ReadTimeout) => "headset did not answer"@,
        QueryFailure::Device(AcquisitionError::UnexpectedFieldValue) => "unknown device status"@,
        QueryFailure::Device(AcquisitionError::IoFailure) => "could not read device status"@,
        QueryFailure::BatteryUnavailable => "battery not found"@,
        QueryFailure::Disconnected => "Wireless connection disconnected."@,
    }
}

} // verus!
