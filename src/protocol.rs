use vstd::prelude::*;

use crate::error::AcquisitionError;

verus! {

/// Length of a long report of the headset's protocol.
pub const REPORT_LEN: usize = 20;

/// Report type of a long report.
pub const LONG_REPORT: u8 = 0x11;

/// Address of the receiver.
pub const RECEIVER_ADDRESS: u8 = 0xff;

/// Feature index of the battery feature.
pub const BATTERY_FEATURE: u8 = 0x08;

/// Function of the battery feature that asks for the voltage.
pub const BATTERY_REQUEST: u8 = 0x0a;

/// State byte of a charging battery.
pub const STATE_CHARGING: u8 = 0x03;

/// What one battery answer of the headset states.
#[derive(Clone, Copy, Debug, PartialEq, Eq, Structural)]
pub struct RawReading {
    pub charging: bool,
    pub voltage: u16,
}

/// The battery request: the report header, then zeros.
pub open spec fn battery_request_of() -> Seq<u8> {
    seq![LONG_REPORT, RECEIVER_ADDRESS, BATTERY_FEATURE, BATTERY_REQUEST] + Seq::new(
        (REPORT_LEN - 4) as nat,
        |i: int| 0u8,
    )
}

/// The reading that an answer states: a read of no bytes timed out, a short
/// one is a transport fault; else byte 6 is the state and bytes 4 and 5 the
/// voltage, most significant first.
pub open spec fn reading_of(buf: Seq<u8>) -> Result<RawReading, AcquisitionError> {
    if buf.len() == 0 {
        Err(AcquisitionError::ReadTimeout)
    } else if buf.len() < 7 {
        Err(AcquisitionError::IoFailure)
    } else {
        Ok(
            RawReading {
                charging: buf[6] == STATE_CHARGING,
                voltage: (buf[4] as int * 256 + buf[5] as int) as u16,
            },
        )
    }
}

/// The report that asks the headset for its battery state.
pub fn battery_request() -> (r: Vec<u8>)
    ensures
        r@ == battery_request_of(),
        r@.len() == REPORT_LEN,
{
    let mut r: Vec<u8> = vec![LONG_REPORT, RECEIVER_ADDRESS, BATTERY_FEATURE, BATTERY_REQUEST];
    while r.len() < REPORT_LEN
        invariant
            4 <= r@.len() <= REPORT_LEN,
            r@.subrange(0, 4) == seq![LONG_REPORT, RECEIVER_ADDRESS, BATTERY_FEATURE, BATTERY_REQUEST],
            forall|i: int| 4 <= i < r@.len() ==> r@[i] == 0,
        decreases REPORT_LEN - r@.len(),
    {
        let ghost before = r@;
        r.push(0);
        assert(r@.subrange(0, 4) =~= before.subrange(0, 4));
    }
    assert(r@ =~= battery_request_of());
    r
}

/// The battery reading in the headset's answer to the battery request.
pub fn parse_battery_response(buf: &[u8]) -> (r: Result<RawReading, AcquisitionError>)
    ensures
        r == reading_of(buf@),
{
    if buf.len() == 0 {
        Err(AcquisitionError::ReadTimeout)
    } else if buf.len() < 7 {
        Err(AcquisitionError::IoFailure)
    } else {
        let voltage: u16 = buf[4] as u16 * 256 + buf[5] as u16;
        Ok(RawReading { charging: buf[6] == STATE_CHARGING, voltage })
    }
}

} // verus!
