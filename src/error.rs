use vstd::prelude::*;

verus! {

/// Why one acquisition gave no reading.
#[derive(Clone, Copy, Debug, PartialEq, Eq, Structural)]
pub enum AcquisitionError {
    /// The headset, or its power-source entry, is not attached.
    DeviceNotFound,
    /// The headset is attached but did not answer in time.
    ReadTimeout,
    /// A status field holds a value outside its known set.
    UnexpectedFieldValue,
    /// The underlying read or enumeration failed.
    IoFailure,
}

} // verus!
