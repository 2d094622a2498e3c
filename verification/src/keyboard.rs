use vstd::prelude::*;
use vstd::string::*;

use crate::error::BridgeError;

verus! {

/// Number of bytes in a command or a response.
pub const REPORT_LENGTH: usize = 32;

/// Number of bytes that go over the wire for a command: the report number,
/// then the command.
pub const FRAME_LENGTH: usize = 33;

/// How long a response is waited for, in milliseconds.
pub const RESPONSE_TIMEOUT_MS: i32 = 10000;

// The first byte of a command or a response tells its kind.
pub const OP_BOOTLOADER: u8 = 0x42;

pub const OP_GET_LAYER: u8 = 0x43;

pub const OP_CHANGE_LAYER: u8 = 0x44;

pub const OP_UPDATE_MATRIX: u8 = 0x45;

/// What identifies the controller among the HID devices.
#[derive(Debug, Clone, Copy, PartialEq, Eq, Structural)]
pub struct HidInfo {
    pub vendor_id: u16,
    pub product_id: u16,
    pub usage_page: u16,
    pub usage: u16,
}

/// The layers of the controller, by their numbers.
#[derive(Debug, Clone, Copy, PartialEq, Eq, Structural)]
pub enum Layers {
    Qwerty,
    Workman,
    Sys,
    Numrow,
    Game,
    Code,
    Numpad,
    LayerSel,
    Trans,
    Unknown,
}

/// A command to the controller.
#[derive(Debug, Clone, Copy, PartialEq, Eq, Structural)]
pub enum Operation {
    /// Restart into the bootloader.
    Bootloader,
    /// Ask for the current layer.
    GetLayer,
    /// Switch to a layer.
    ChangeLayer(u8),
    /// Tell that the key at a row and a column went down (`true`) or up.
    UpdateMatrix(bool, u8, u8),
}

/// What the controller answered.
#[derive(Debug, Clone, Copy, PartialEq, Eq, Structural)]
pub enum KeyboardResponse {
    /// Nothing that is understood.
    Nothing,
    /// The layer that is current now.
    CurrentLayer(u8),
}

/// How reading a response from the device ended.
#[derive(Debug)]
pub enum ReadOutcome {
    /// The read returned, with this many bytes; none if the time ran out.
    Received(usize),
    /// The read failed, with this message.
    Failed(String),
}

impl HidInfo {
    /// The first of `devices` that is the one looked for, by its place in
    /// the list.
    pub fn find_in(&self, devices: &Vec<HidInfo>) -> (found: Option<usize>)
        ensures
            match found {
                Some(i) => i < devices@.len() && devices@[i as int] == *self && forall|j: int|
                    0 <= j < i ==> devices@[j] != *self,
                None => forall|j: int| 0 <= j < devices@.len() ==> devices@[j] != *self,
            },
    {
        let mut i: usize = 0;
        while i < devices.len()
            invariant
                i <= devices@.len(),
                forall|j: int| 0 <= j < i ==> devices@[j] != *self,
            decreases devices@.len() - i,
        {
            let device = &devices[i];
            if device.vendor_id == self.vendor_id && device.product_id == self.product_id
                && device.usage_page == self.usage_page && device.usage == self.usage {
                return Some(i);
            }
            i += 1;
        }
        None
    }

    /// The place in `devices` of the first one that is the one looked for,
    /// or the error `DeviceOpenFailed` where none of them is.
    pub fn locate(&self, devices: &Vec<HidInfo>) -> (found: Result<usize, BridgeError>)
        ensures
            match found {
                Ok(i) => i < devices@.len() && devices@[i as int] == *self && forall|j: int|
                    0 <= j < i ==> devices@[j] != *self,
                Err(e) => e == BridgeError::DeviceOpenFailed && forall|j: int|
                    0 <= j < devices@.len() ==> devices@[j] != *self,
            },
    {
        match self.find_in(devices) {
            Some(i) => Ok(i),
            None => Err(BridgeError::DeviceOpenFailed),
        }
    }
}

/// What a write to the controller comes to: it went well where it was made
/// and took all `wanted` bytes, and is an `IoError` where it failed
/// (`written` is `None`) or took another number of bytes.
pub fn after_write(written: Option<usize>, wanted: usize) -> (outcome: Result<(), BridgeError>)
    ensures
        outcome == if written == Some(wanted) {
            Ok::<(), BridgeError>(())
        } else {
            Err(BridgeError::IoError)
        },
{
    match written {
        Some(count) => {
            if count == wanted {
                Ok(())
            } else {
                Err(BridgeError::IoError)
            }
        },
        None => Err(BridgeError::IoError),
    }
}

impl Layers {
    /// The layer with the number `n`; `Unknown` for a number that no layer
    /// has.
    pub open spec fn of_number(n: u8) -> Layers {
        if n == 0 {
            Layers::Qwerty
        } else if n == 1 {
            Layers::Workman
        } else if n == 2 {
            Layers::Sys
        } else if n == 3 {
            Layers::Numrow
        } else if n == 5 {
            Layers::Game
        } else if n == 6 {
            Layers::Code
        } else if n == 7 {
            Layers::Numpad
        } else if n == 14 {
            Layers::LayerSel
        } else if n == 15 {
            Layers::Trans
        } else {
            Layers::Unknown
        }
    }

    /// The name of the layer.
    pub open spec fn name(self) -> Seq<char> {
        match self {
            Layers::Qwerty => "Qwerty"@,
            Layers::Workman => "Workman"@,
            Layers::Sys => "Sys"@,
            Layers::Numrow => "Numrow"@,
            Layers::Game => "Game"@,
            Layers::Code => "Code"@,
            Layers::Numpad => "Numpad"@,
            Layers::LayerSel => "LayerSel"@,
            Layers::Trans => "Trans"@,
            Layers::Unknown => "Unknown"@,
        }
    }

    /// The name of the layer, as text.
    pub fn to_string(&self) -> (text: String)
        ensures
            text@ == self.name(),
    {
        let name = match self {
            Layers::Qwerty => "Qwerty",
            Layers::Workman => "Workman",
            Layers::Sys => "Sys",
            Layers::Numrow => "Numrow",
            Layers::Game => "Game",
            Layers::Code => "Code",
            Layers::Numpad => "Numpad",
            Layers::LayerSel => "LayerSel",
            Layers::Trans => "Trans",
            Layers::Unknown => "Unknown",
        };
        name.to_owned()
    }
}

impl From<u8> for Layers {
    fn from(value: u8) -> (layer: Layers) {
        match value {
            0 => Layers::Qwerty,
            1 => Layers::Workman,
            2 => Layers::Sys,
            3 => Layers::Numrow,
            5 => Layers::Game,
            6 => Layers::Code,
            7 => Layers::Numpad,
            14 => Layers::LayerSel,
            15 => Layers::Trans,
            _ => Layers::Unknown,
        }
    }
}

impl vstd::std_specs::convert::FromSpecImpl<u8> for Layers {
    open spec fn obeys_from_spec() -> bool {
        true
    }

    open spec fn from_spec(value: u8) -> Layers {
        Layers::of_number(value)
    }
}

impl Operation {
    /// The 32 bytes of the command: its kind in byte 0, what it carries in
    /// the bytes after it, and zeros in all the rest.
    pub open spec fn wire(self) -> Seq<u8> {
        Seq::new(
            REPORT_LENGTH as nat,
            |i: int|
                match self {
                    Operation::Bootloader => if i == 0 {
                        OP_BOOTLOADER
                    } else {
                        0u8
                    },
                    Operation::GetLayer => if i == 0 {
                        OP_GET_LAYER
                    } else {
                        0u8
                    },
                    Operation::ChangeLayer(layer) => if i == 0 {
                        OP_CHANGE_LAYER
                    } else if i == 1 {
                        layer
                    } else {
                        0u8
                    },
                    Operation::UpdateMatrix(pressed, row, col) => if i == 0 {
                        OP_UPDATE_MATRIX
                    } else if i == 1 {
                        if pressed {
                            1u8
                        } else {
                            0u8
                        }
                    } else if i == 2 {
                        row
                    } else if i == 3 {
                        col
                    } else {
                        0u8
                    },
                },
        )
    }

    /// The bytes that go over the wire for the command: a zero for the
    /// report number, then the 32 bytes of the command.
    pub open spec fn framed(self) -> Seq<u8> {
        seq![0u8] + self.wire()
    }

    /// The command as 32 bytes.
    pub fn report(&self) -> (buffer: [u8; 32])
        ensures
            buffer@ == self.wire(),
    {
        let mut ret = [0u8;32];
        match self {
            Operation::Bootloader => {
                ret[0] = OP_BOOTLOADER;
            },
            Operation::GetLayer => {
                ret[0] = OP_GET_LAYER;
            },
            Operation::ChangeLayer(layer) => {
                ret[0] = OP_CHANGE_LAYER;
                ret[1] = *layer;
            },
            Operation::UpdateMatrix(pressed, row, col) => {
                ret[0] = OP_UPDATE_MATRIX;
                ret[1] = if *pressed {
                    1
                } else {
                    0
                };
                ret[2] = *row;
                ret[3] = *col;
            },
        }
        ret
    }

    /// The command as the 33 bytes that are written to the device.
    pub fn frame(&self) -> (buffer: [u8; 33])
        ensures
            buffer@ == self.framed(),
    {
        let report = self.report();
        let mut buffer = [0u8;33];
        let mut i: usize = 0;
        while i < REPORT_LENGTH
            invariant
                i <= REPORT_LENGTH,
                report@ == self.wire(),
                buffer@[0] == 0,
                forall|j: int| 0 <= j < i ==> buffer@[j + 1] == report@[j],
            decreases REPORT_LENGTH - i,
        {
            buffer[i + 1] = report[i];
            i += 1;
        }
        buffer
    }
}

impl KeyboardResponse {
    /// What a response of 32 bytes says: the current layer, from byte 1,
    /// where byte 0 is the kind of a layer query or of a layer change, and
    /// nothing otherwise.
    pub open spec fn of_bytes(bytes: Seq<u8>) -> KeyboardResponse {
        if bytes[0] == OP_GET_LAYER || bytes[0] == OP_CHANGE_LAYER {
            KeyboardResponse::CurrentLayer(bytes[1])
        } else {
            KeyboardResponse::Nothing
        }
    }

    /// What an exchange comes to, from how the read ended and what the
    /// buffer holds. A read of no bytes is a timeout. A read that failed
    /// because the device went away counts as a response, read from the
    /// buffer as it stands; any other failure is an error.
    pub open spec fn of_outcome(outcome: ReadOutcome, bytes: Seq<u8>) -> Result<
        KeyboardResponse,
        BridgeError,
    > {
        match outcome {
            ReadOutcome::Received(count) => if count == 0 {
                Err(BridgeError::Timeout)
            } else {
                Ok(KeyboardResponse::of_bytes(bytes))
            },
            ReadOutcome::Failed(message) => if tells_disconnect(message@) {
                Ok(KeyboardResponse::of_bytes(bytes))
            } else {
                Err(BridgeError::IoError)
            },
        }
    }

    /// Reads a response of 32 bytes.
    pub fn parse_response(buffer: [u8; 32]) -> (response: KeyboardResponse)
        ensures
            response == KeyboardResponse::of_bytes(buffer@),
    {
        if buffer[0] == OP_GET_LAYER || buffer[0] == OP_CHANGE_LAYER {
            KeyboardResponse::CurrentLayer(buffer[1])
        } else {
            KeyboardResponse::Nothing
        }
    }

    /// What an exchange comes to, from how the read ended and what the
    /// buffer holds.
    pub fn from_read(outcome: &ReadOutcome, buffer: [u8; 32]) -> (response: Result<
        KeyboardResponse,
        BridgeError,
    >)
        ensures
            response == KeyboardResponse::of_outcome(*outcome, buffer@),
    {
        match outcome {
            ReadOutcome::Received(count) => {
                if *count == 0 {
                    Err(BridgeError::Timeout)
                } else {
                    Ok(KeyboardResponse::parse_response(buffer))
                }
            },
            ReadOutcome::Failed(message) => {
                if contains(message.as_str(), "device disconnected") {
                    Ok(KeyboardResponse::parse_response(buffer))
                } else {
                    Err(BridgeError::IoError)
                }
            },
        }
    }
}

/// Whether `part` stands in `text` from the place `at` on.
pub open spec fn occurs_at(text: Seq<char>, part: Seq<char>, at: int) -> bool {
    0 <= at && at + part.len() <= text.len() && text.subrange(at, at + part.len()) == part
}

/// Whether `part` stands somewhere in `text`.
pub open spec fn occurs_in(text: Seq<char>, part: Seq<char>) -> bool {
    exists|at: int| occurs_at(text, part, at)
}

/// Whether the message of a failed read tells that the device went away.
pub open spec fn tells_disconnect(message: Seq<char>) -> bool {
    occurs_in(message, "device disconnected"@)
}

/// Whether `part` stands in `text` from the place `at` on.
fn matches_at(text: &str, part: &str, at: usize) -> (hit: bool)
    requires
        at + part@.len() <= text@.len() <= usize::MAX,
    ensures
        hit == occurs_at(text@, part@, at as int),
{
    let n = part.unicode_len();
    let mut i: usize = 0;
    while i < n
        invariant
            i <= n,
            n == part@.len(),
            at + n <= text@.len() <= usize::MAX,
            forall|j: int| 0 <= j < i ==> text@[at + j] == part@[j],
        decreases n - i,
    {
        if text.get_char(at + i) != part.get_char(i) {
            return false;
        }
        i += 1;
    }
    assert(text@.subrange(at as int, at + n) =~= part@);
    true
}

/// Whether `part` stands somewhere in `text`.
pub fn contains(text: &str, part: &str) -> (hit: bool)
    ensures
        hit == occurs_in(text@, part@),
{
    let length = text.unicode_len();
    let n = part.unicode_len();
    if n > length {
        return false;
    }
    if n == 0 {
        assert(text@.subrange(0, 0) =~= part@);
        assert(occurs_at(text@, part@, 0));
        return true;
    }
    let mut at: usize = 0;
    while at <= length - n
        invariant
            0 < n <= length,
            length == text@.len(),
            n == part@.len(),
            at <= length - n + 1,
            forall|k: int| 0 <= k < at ==> !occurs_at(text@, part@, k),
        decreases length - n + 1 - at,
    {
        if matches_at(text, part, at) {
            return true;
        }
        at += 1;
    }
    false
}

/// No two commands are written as the same bytes: what was written tells
/// the command.
pub proof fn lemma_report_tells_kind(a: Operation, b: Operation)
    requires
        a.wire() == b.wire(),
    ensures
        a == b,
{
    let (s, t) = (a.wire(), b.wire());
    assert(s[0] == t[0] && s[1] == t[1] && s[2] == t[2] && s[3] == t[3]);
    match a {
        Operation::Bootloader => assert(s[0] == OP_BOOTLOADER),
        Operation::GetLayer => assert(s[0] == OP_GET_LAYER),
        Operation::ChangeLayer(layer) => assert(s[0] == OP_CHANGE_LAYER && s[1] == layer),
        Operation::UpdateMatrix(..) => assert(s[0] == OP_UPDATE_MATRIX),
    }
}

/// A response is read by its first two bytes alone: a command for a layer,
/// sent back as it is, reads as that layer, and any other command as nothing.
pub proof fn lemma_response_to_echo(operation: Operation)
    ensures
        KeyboardResponse::of_bytes(operation.wire()) == match operation {
            Operation::GetLayer => KeyboardResponse::CurrentLayer(0),
            Operation::ChangeLayer(layer) => KeyboardResponse::CurrentLayer(layer),
            _ => KeyboardResponse::Nothing,
        },
{
}

} // verus!
