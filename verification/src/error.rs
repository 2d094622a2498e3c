use vstd::prelude::*;

verus! {

/// What can go wrong between the input device, the virtual device and the
/// controller.
#[derive(Debug, Clone, Copy, PartialEq, Eq, Structural)]
pub enum BridgeError {
    /// A device could not be opened.
    DeviceOpenFailed,
    /// The input device refused to be grabbed.
    GrabFailed,
    /// A step of setting up the virtual device failed.
    SetupFailed,
    /// A read or a write failed, or moved fewer bytes than it had to.
    IoError,
    /// The controller did not answer within the time allowed.
    Timeout,
}

impl BridgeError {
    /// What the error says, in words.
    pub open spec fn text(self) -> Seq<char> {
        match self {
            BridgeError::DeviceOpenFailed => "could not open the device"@,
            BridgeError::GrabFailed => "could not grab the input device"@,
            BridgeError::SetupFailed => "could not set up the virtual device"@,
            BridgeError::IoError => "read or write failed"@,
            BridgeError::Timeout => "no response within the time allowed"@,
        }
    }

    /// What the error says, in words.
    pub fn message(&self) -> (text: &'static str)
        ensures
            text@ == self.text(),
    {
        match self {
            BridgeError::DeviceOpenFailed => "could not open the device",
            BridgeError::GrabFailed => "could not grab the input device",
            BridgeError::SetupFailed => "could not set up the virtual device",
            BridgeError::IoError => "read or write failed",
            BridgeError::Timeout => "no response within the time allowed",
        }
    }
}

} // verus!
