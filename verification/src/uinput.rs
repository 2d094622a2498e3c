use vstd::prelude::*;
use vstd::slice::*;
use vstd::string::StringSliceAdditionalSpecFns;

use crate::error::BridgeError;
use crate::key_event::{KeyEvent, MyTime, EV_KEY};

verus! {

// The requests that set up and tear down a virtual input device.
pub const UI_SET_EVBIT: u64 = 1074025828;

pub const UI_SET_KEYBIT: u64 = 1074025829;

pub const UI_DEV_SETUP: u64 = 1079792899;

pub const UI_DEV_CREATE: u64 = 21761;

pub const UI_DEV_DESTROY: u64 = 21762;

/// The bus that the virtual device says it is on.
pub const BUS_USB: u16 = 3;

/// Number of key codes that the virtual device can send: those from 0 up to,
/// and without, this one.
pub const KEY_BITS: u16 = 255;

/// Number of bytes that the setup holds for the name of the device, the
/// closing zero among them.
pub const NAME_LENGTH: usize = 80;

/// What a virtual device is set up with: who it says it is, and its name as
/// zero-ended bytes.
#[derive(Debug, Clone, Copy)]
pub struct DeviceSetup {
    pub bustype: u16,
    pub vendor: u16,
    pub product: u16,
    pub version: u16,
    pub name: [u8; 80],
    pub ff_effects_max: u32,
}

/// One step of setting up a virtual device.
#[derive(Debug, Clone, Copy)]
pub enum SetupStep {
    /// Allow events of this type.
    SetEventBit(u16),
    /// Allow the key with this code.
    SetKeyBit(u16),
    /// Say who the device is.
    Setup(DeviceSetup),
    /// Bring the device into being.
    Create,
}

/// Whether the byte of a name at the place `i` goes into the setup: it does
/// where the setup has room for it before its closing zero, and the name
/// has no zero byte up to it.
pub open spec fn is_copied(name: Seq<u8>, i: int) -> bool {
    &&& 0 <= i < NAME_LENGTH - 1
    &&& i < name.len()
    &&& forall|j: int| 0 <= j <= i ==> name[j] != 0
}

/// The name as the setup holds it: the bytes of the name up to its first
/// zero byte, as far as there is room, and zeros after them.
pub open spec fn name_field(name: Seq<u8>) -> Seq<u8> {
    Seq::new(
        NAME_LENGTH as nat,
        |i: int|
            if is_copied(name, i) {
                name[i]
            } else {
                0u8
            },
    )
}

impl DeviceSetup {
    /// The setup of a USB keyboard with this identity and name.
    pub open spec fn describes(self, name: Seq<u8>, vendor: u16, product: u16, version: u16) -> bool {
        &&& self.bustype == BUS_USB
        &&& self.vendor == vendor
        &&& self.product == product
        &&& self.version == version
        &&& self.name@ == name_field(name)
        &&& self.ff_effects_max == 0
    }

    /// The setup of a USB keyboard with this identity and name. Of a name
    /// that is too long only the start is kept.
    pub fn new(name: &str, vendor: u16, product: u16, version: u16) -> (setup: DeviceSetup)
        ensures
            setup.describes(name.spec_bytes(), vendor, product, version),
    {
        DeviceSetup {
            bustype: BUS_USB,
            vendor,
            product,
            version,
            name: copy_name(name.as_bytes()),
            ff_effects_max: 0,
        }
    }
}

/// Copies a name into the bytes that the setup holds for it.
pub fn copy_name(name: &[u8]) -> (field: [u8; 80])
    ensures
        field@ == name_field(name@),
{
    let mut field = [0u8;80];
    let mut i: usize = 0;
    while i < NAME_LENGTH - 1 && i < name.len() && name[i] != 0
        invariant
            i <= NAME_LENGTH - 1,
            i <= name@.len(),
            forall|j: int| 0 <= j < i ==> name@[j] != 0 && field@[j] == name@[j],
            forall|j: int| i <= j < NAME_LENGTH ==> field@[j] == 0,
        decreases NAME_LENGTH - i,
    {
        field[i] = name[i];
        i += 1;
    }
    assert forall|j: int| i <= j < NAME_LENGTH implies !is_copied(name@, j) by {
        if is_copied(name@, j) {
            assert(name@[i as int] != 0);
        }
    }
    assert(field@ =~= name_field(name@));
    field
}

impl SetupStep {
    /// The number of the request that carries out the step.
    pub fn request(&self) -> (number: u64)
        ensures
            number == match self {
                SetupStep::SetEventBit(_) => UI_SET_EVBIT,
                SetupStep::SetKeyBit(_) => UI_SET_KEYBIT,
                SetupStep::Setup(_) => UI_DEV_SETUP,
                SetupStep::Create => UI_DEV_CREATE,
            },
    {
        match self {
            SetupStep::SetEventBit(_) => UI_SET_EVBIT,
            SetupStep::SetKeyBit(_) => UI_SET_KEYBIT,
            SetupStep::Setup(_) => UI_DEV_SETUP,
            SetupStep::Create => UI_DEV_CREATE,
        }
    }
}

/// Whether `steps` set up a keyboard with this identity and name: first key
/// events are allowed, then every key code from 0 to 254 in turn, then the
/// device says who it is, and last it is brought into being.
pub open spec fn is_setup_plan(
    steps: Seq<SetupStep>,
    name: Seq<u8>,
    vendor: u16,
    product: u16,
    version: u16,
) -> bool {
    &&& steps.len() == KEY_BITS + 3
    &&& steps[0] matches SetupStep::SetEventBit(kind) && kind == EV_KEY
    &&& forall|k: int|
        0 <= k < KEY_BITS ==> (#[trigger] steps[k + 1] matches SetupStep::SetKeyBit(key) && key == k)
    &&& steps[KEY_BITS + 1] matches SetupStep::Setup(setup) && setup.describes(
        name,
        vendor,
        product,
        version,
    )
    &&& steps[KEY_BITS + 2] is Create
}

/// The steps that set up a keyboard with this identity and name, in the
/// order in which they are to be carried out. A step that fails ends the
/// setup.
pub fn setup_steps(name: &str, vendor: u16, product: u16, version: u16) -> (steps: Vec<SetupStep>)
    ensures
        is_setup_plan(steps@, name.spec_bytes(), vendor, product, version),
{
    let mut steps: Vec<SetupStep> = Vec::new();
    steps.push(SetupStep::SetEventBit(EV_KEY));
    let mut key: u16 = 0;
    while key < KEY_BITS
        invariant
            key <= KEY_BITS,
            steps@.len() == key + 1,
            steps@[0] matches SetupStep::SetEventBit(kind) && kind == EV_KEY,
            forall|k: int|
                0 <= k < key ==> (#[trigger] steps@[k + 1] matches SetupStep::SetKeyBit(bit) && bit
                    == k),
        decreases KEY_BITS - key,
    {
        steps.push(SetupStep::SetKeyBit(key));
        key += 1;
    }
    steps.push(SetupStep::Setup(DeviceSetup::new(name, vendor, product, version)));
    steps.push(SetupStep::Create);
    steps
}

/// What a step of the setup comes to, from the status that its request
/// returned: a negative status is the error `SetupFailed`, which ends the
/// setup, and any other lets it go on.
pub fn after_step(status: i32) -> (outcome: Result<(), BridgeError>)
    ensures
        outcome == if status < 0 {
            Err::<(), BridgeError>(BridgeError::SetupFailed)
        } else {
            Ok(())
        },
{
    if status < 0 {
        Err(BridgeError::SetupFailed)
    } else {
        Ok(())
    }
}

/// What is written to the virtual device for one event: the record of the
/// event, then the record of a synchronisation report with the value 0 and
/// the time `now`, without which the event would lie unread.
pub fn event_with_sync(event: KeyEvent, now: MyTime) -> (records: ([u8; 24], [u8; 24]))
    ensures
        records.0@ == event.bytes(),
        records.1@ == KeyEvent::Sync(0, now).bytes(),
{
    (event.encode(), KeyEvent::Sync(0, now).encode())
}

} // verus!
