pub mod key_code;
pub mod matrix_mapper;

use vstd::arithmetic::div_mod::lemma_fundamental_div_mod_converse;
use vstd::prelude::*;

use self::key_code::{
    lemma_code_assigned, lemma_code_round_trip, lemma_with_code_has_code, KeyCode,
};
use crate::error::BridgeError;

verus! {

/// The request that grabs an input device for one reader, or lets it go.
pub const EVIOCGRAB: u64 = 0x40044590;

// Types of input records.
pub const EV_SYN: u16 = 0x00;

pub const EV_KEY: u16 = 0x01;

pub const EV_MSC: u16 = 0x04;

// Codes of synchronisation records.
pub const SYN_REPORT: u16 = 0;

// Codes of miscellaneous records.
pub const MSC_SCAN: u16 = 0x04;

// Values of key records.
pub const KEY_RELEASE: i32 = 0;

pub const KEY_PRESS: i32 = 1;

pub const KEY_HOLD: i32 = 2;

/// Number of bytes in one raw input record.
pub const RECORD_LENGTH: usize = 24;

/// The argument of the grab request.
#[derive(Debug, Clone, Copy, PartialEq, Eq, Structural)]
pub enum IOctlOp {
    Ungrab,
    Grab,
}

impl IOctlOp {
    /// The number that the request takes: 1 to grab, 0 to let go.
    pub fn value(self) -> (n: i32)
        ensures
            n == (if self == IOctlOp::Grab { 1int } else { 0int }),
    {
        match self {
            IOctlOp::Ungrab => 0,
            IOctlOp::Grab => 1,
        }
    }
}

/// What a grab of the input device comes to, from the status that the
/// request returned: a negative status is the error `GrabFailed`.
pub fn after_grab(status: i32) -> (outcome: Result<(), BridgeError>)
    ensures
        outcome == if status < 0 {
            Err::<(), BridgeError>(BridgeError::GrabFailed)
        } else {
            Ok(())
        },
{
    if status < 0 {
        Err(BridgeError::GrabFailed)
    } else {
        Ok(())
    }
}

/// The time of an event, as the input subsystem stamps it: seconds since the
/// epoch and microseconds within the second.
#[derive(Debug, Clone, Copy, PartialEq, Eq, Structural)]
pub struct MyTime {
    pub seconds: i64,
    pub microseconds: i64,
}

/// An event of a keyboard.
#[derive(Debug, Clone, Copy, PartialEq, Eq, Structural)]
pub enum KeyEvent {
    /// A key went down; the flag tells a repeat of a held key from the first
    /// press.
    Press(KeyCode, bool, MyTime),
    /// A key went up.
    Release(KeyCode, MyTime),
    /// The events before this one belong together.
    Sync(i32, MyTime),
    /// The scan code of the key that the next event is about.
    Scancode(i32, MyTime),
    /// Any other record, with its type, code and value as they were read.
    Unsupported(u16, u16, i32, MyTime),
}

/// A raw input record, field by field.
#[derive(Debug, Clone, Copy, PartialEq, Eq, Structural)]
pub struct InputEvent {
    pub time: MyTime,
    pub type_: u16,
    pub code: u16,
    pub value: i32,
}

/// The 16-bit number that two bytes of `bytes` hold from `at` on, the low
/// byte first.
pub open spec fn le_u16(bytes: Seq<u8>, at: int) -> int {
    bytes[at] + 0x100 * bytes[at + 1]
}

/// The 32-bit number that four bytes of `bytes` hold from `at` on, the low
/// byte first.
pub open spec fn le_u32(bytes: Seq<u8>, at: int) -> int {
    le_u16(bytes, at) + 0x1_0000 * le_u16(bytes, at + 2)
}

/// The 64-bit number that eight bytes of `bytes` hold from `at` on, the low
/// byte first.
pub open spec fn le_u64(bytes: Seq<u8>, at: int) -> int {
    le_u32(bytes, at) + 0x1_0000_0000 * le_u32(bytes, at + 4)
}

/// The two bytes that hold `n`, the low byte first.
pub open spec fn le_bytes_16(n: int) -> Seq<u8> {
    seq![(n % 0x100) as u8, (n / 0x100) as u8]
}

/// The four bytes that hold `n`, the low byte first.
pub open spec fn le_bytes_32(n: int) -> Seq<u8> {
    le_bytes_16(n % 0x1_0000) + le_bytes_16(n / 0x1_0000)
}

/// The eight bytes that hold `n`, the low byte first.
pub open spec fn le_bytes_64(n: int) -> Seq<u8> {
    le_bytes_32(n % 0x1_0000_0000) + le_bytes_32(n / 0x1_0000_0000)
}

/// The signed number that the unsigned 32-bit number `n` stands for in
/// two's complement.
pub open spec fn signed_32(n: int) -> int {
    if n < 0x8000_0000 {
        n
    } else {
        n - 0x1_0000_0000
    }
}

/// The signed number that the unsigned 64-bit number `n` stands for in
/// two's complement.
pub open spec fn signed_64(n: int) -> int {
    if n < 0x8000_0000_0000_0000 {
        n
    } else {
        n - 0x1_0000_0000_0000_0000
    }
}

/// The unsigned 32-bit number that stands for `n` in two's complement.
pub open spec fn unsigned_32(n: int) -> int {
    if n < 0 {
        n + 0x1_0000_0000
    } else {
        n
    }
}

/// The unsigned 64-bit number that stands for `n` in two's complement.
pub open spec fn unsigned_64(n: int) -> int {
    if n < 0 {
        n + 0x1_0000_0000_0000_0000
    } else {
        n
    }
}

fn read_u16(bytes: &[u8; 24], at: usize) -> (n: u16)
    requires
        at + 2 <= 24,
    ensures
        n == le_u16(bytes@, at as int),
{
    bytes[at] as u16 + 0x100 * (bytes[at + 1] as u16)
}

fn read_u32(bytes: &[u8; 24], at: usize) -> (n: u32)
    requires
        at + 4 <= 24,
    ensures
        n == le_u32(bytes@, at as int),
{
    read_u16(bytes, at) as u32 + 0x1_0000 * (read_u16(bytes, at + 2) as u32)
}

fn read_u64(bytes: &[u8; 24], at: usize) -> (n: u64)
    requires
        at + 8 <= 24,
    ensures
        n == le_u64(bytes@, at as int),
{
    read_u32(bytes, at) as u64 + 0x1_0000_0000 * (read_u32(bytes, at + 4) as u64)
}

fn write_u16(bytes: &mut [u8; 24], at: usize, n: u16)
    requires
        at + 2 <= 24,
    ensures
        final(bytes)@.subrange(at as int, at + 2) == le_bytes_16(n as int),
        forall|i: int| 0 <= i < 24 && !(at <= i < at + 2) ==> final(bytes)@[i] == old(bytes)@[i],
{
    bytes[at] = (n % 0x100) as u8;
    bytes[at + 1] = (n / 0x100) as u8;
}

fn write_u32(bytes: &mut [u8; 24], at: usize, n: u32)
    requires
        at + 4 <= 24,
    ensures
        final(bytes)@.subrange(at as int, at + 4) == le_bytes_32(n as int),
        forall|i: int| 0 <= i < 24 && !(at <= i < at + 4) ==> final(bytes)@[i] == old(bytes)@[i],
{
    write_u16(bytes, at, (n % 0x1_0000) as u16);
    write_u16(bytes, at + 2, (n / 0x1_0000) as u16);
}

fn write_u64(bytes: &mut [u8; 24], at: usize, n: u64)
    requires
        at + 8 <= 24,
    ensures
        final(bytes)@.subrange(at as int, at + 8) == le_bytes_64(n as int),
        forall|i: int| 0 <= i < 24 && !(at <= i < at + 8) ==> final(bytes)@[i] == old(bytes)@[i],
{
    write_u32(bytes, at, (n % 0x1_0000_0000) as u32);
    write_u32(bytes, at + 4, (n / 0x1_0000_0000) as u32);
}

fn to_signed_32(n: u32) -> (s: i32)
    ensures
        s == signed_32(n as int),
{
    if n < 0x8000_0000 {
        n as i32
    } else {
        (n - 0x8000_0000) as i32 + i32::MIN
    }
}

fn to_signed_64(n: u64) -> (s: i64)
    ensures
        s == signed_64(n as int),
{
    if n < 0x8000_0000_0000_0000 {
        n as i64
    } else {
        (n - 0x8000_0000_0000_0000) as i64 + i64::MIN
    }
}

fn to_unsigned_32(s: i32) -> (n: u32)
    ensures
        n == unsigned_32(s as int),
{
    if s < 0 {
        (s - i32::MIN) as u32 + 0x8000_0000
    } else {
        s as u32
    }
}

fn to_unsigned_64(s: i64) -> (n: u64)
    ensures
        n == unsigned_64(s as int),
{
    if s < 0 {
        (s - i64::MIN) as u64 + 0x8000_0000_0000_0000
    } else {
        s as u64
    }
}

impl InputEvent {
    /// The record that 24 bytes hold: the seconds in bytes 0 to 7, the
    /// microseconds in bytes 8 to 15, the type in bytes 16 and 17, the code
    /// in bytes 18 and 19 and the value in bytes 20 to 23, each with its low
    /// byte first, the times and the value in two's complement.
    pub open spec fn of_bytes(bytes: Seq<u8>) -> InputEvent {
        InputEvent {
            time: MyTime {
                seconds: signed_64(le_u64(bytes, 0)) as i64,
                microseconds: signed_64(le_u64(bytes, 8)) as i64,
            },
            type_: le_u16(bytes, 16) as u16,
            code: le_u16(bytes, 18) as u16,
            value: signed_32(le_u32(bytes, 20)) as i32,
        }
    }

    /// The 24 bytes that hold the record, laid out as `of_bytes` reads them.
    pub open spec fn bytes(self) -> Seq<u8> {
        le_bytes_64(unsigned_64(self.time.seconds as int)) + le_bytes_64(
            unsigned_64(self.time.microseconds as int),
        ) + le_bytes_16(self.type_ as int) + le_bytes_16(self.code as int) + le_bytes_32(
            unsigned_32(self.value as int),
        )
    }

    /// Reads a record from its bytes.
    pub fn from_bytes(bytes: &[u8; 24]) -> (record: InputEvent)
        ensures
            record == InputEvent::of_bytes(bytes@),
    {
        InputEvent {
            time: MyTime {
                seconds: to_signed_64(read_u64(bytes, 0)),
                microseconds: to_signed_64(read_u64(bytes, 8)),
            },
            type_: read_u16(bytes, 16),
            code: read_u16(bytes, 18),
            value: to_signed_32(read_u32(bytes, 20)),
        }
    }

    /// Writes the record as bytes.
    pub fn to_bytes(&self) -> (bytes: [u8; 24])
        ensures
            bytes@ == self.bytes(),
    {
        let mut bytes = [0u8;24];
        write_u64(&mut bytes, 0, to_unsigned_64(self.time.seconds));
        write_u64(&mut bytes, 8, to_unsigned_64(self.time.microseconds));
        write_u16(&mut bytes, 16, self.type_);
        write_u16(&mut bytes, 18, self.code);
        write_u32(&mut bytes, 20, to_unsigned_32(self.value));
        bytes
    }
}

impl KeyEvent {
    /// The event that a record stands for. A synchronisation report is
    /// `Sync` and a scan code is `Scancode`, each with the record's value. A
    /// key record whose code is that of a key is `Release` for the value 0,
    /// `Press` for 1 and a repeated `Press` for 2. Every other record is
    /// `Unsupported` and keeps its type, code and value.
    pub open spec fn of_record(record: InputEvent) -> KeyEvent {
        if record.type_ == EV_SYN && record.code == SYN_REPORT {
            KeyEvent::Sync(record.value, record.time)
        } else if record.type_ == EV_MSC && record.code == MSC_SCAN {
            KeyEvent::Scancode(record.value, record.time)
        } else if record.type_ == EV_KEY && KeyCode::with_code(record.code as int) is Some
            && KEY_RELEASE <= record.value <= KEY_HOLD {
            let key = KeyCode::with_code(record.code as int).unwrap();
            if record.value == KEY_RELEASE {
                KeyEvent::Release(key, record.time)
            } else {
                KeyEvent::Press(key, record.value == KEY_HOLD, record.time)
            }
        } else {
            KeyEvent::Unsupported(record.type_, record.code, record.value, record.time)
        }
    }

    /// The record that stands for the event.
    pub open spec fn record(self) -> InputEvent {
        match self {
            KeyEvent::Press(key, repeat, time) => InputEvent {
                time,
                type_: EV_KEY,
                code: key.code() as u16,
                value: if repeat {
                    KEY_HOLD
                } else {
                    KEY_PRESS
                },
            },
            KeyEvent::Release(key, time) => InputEvent {
                time,
                type_: EV_KEY,
                code: key.code() as u16,
                value: KEY_RELEASE,
            },
            KeyEvent::Sync(value, time) => InputEvent {
                time,
                type_: EV_SYN,
                code: SYN_REPORT,
                value,
            },
            KeyEvent::Scancode(value, time) => InputEvent {
                time,
                type_: EV_MSC,
                code: MSC_SCAN,
                value,
            },
            KeyEvent::Unsupported(type_, code, value, time) => InputEvent {
                time,
                type_,
                code,
                value,
            },
        }
    }

    /// Whether the event is one that reading a record can give. Every
    /// `Press`, `Release`, `Sync` and `Scancode` is; an `Unsupported` is
    /// unless its type, code and value are those of one of the other four.
    pub open spec fn is_readable(self) -> bool {
        match self {
            KeyEvent::Unsupported(type_, code, value, _) => {
                &&& !(type_ == EV_SYN && code == SYN_REPORT)
                &&& !(type_ == EV_MSC && code == MSC_SCAN)
                &&& !(type_ == EV_KEY && KeyCode::with_code(code as int) is Some && KEY_RELEASE
                    <= value <= KEY_HOLD)
            },
            _ => true,
        }
    }

    /// The event that 24 bytes of a raw record stand for.
    pub open spec fn of_bytes(bytes: Seq<u8>) -> KeyEvent {
        KeyEvent::of_record(InputEvent::of_bytes(bytes))
    }

    /// The 24 bytes of the raw record that stands for the event.
    pub open spec fn bytes(self) -> Seq<u8> {
        self.record().bytes()
    }

    /// Reads an event from the bytes of a raw record. Every record gives an
    /// event.
    pub fn decode(bytes: &[u8; 24]) -> (event: KeyEvent)
        ensures
            event == KeyEvent::of_bytes(bytes@),
    {
        KeyEvent::from(InputEvent::from_bytes(bytes))
    }

    /// What one read from the input device comes to: the event of the
    /// record in `buffer` where the read filled it, with `count` equal to
    /// the length of a record, and an `IoError` where it brought fewer or
    /// more bytes.
    pub fn from_read(buffer: &[u8; 24], count: usize) -> (event: Result<KeyEvent, BridgeError>)
        ensures
            event == if count == RECORD_LENGTH {
                Ok::<KeyEvent, BridgeError>(KeyEvent::of_bytes(buffer@))
            } else {
                Err(BridgeError::IoError)
            },
    {
        if count == RECORD_LENGTH {
            Ok(KeyEvent::decode(buffer))
        } else {
            Err(BridgeError::IoError)
        }
    }

    /// Writes the event as the bytes of a raw record.
    pub fn encode(self) -> (bytes: [u8; 24])
        ensures
            bytes@ == self.bytes(),
    {
        InputEvent::from(self).to_bytes()
    }
}

impl From<InputEvent> for KeyEvent {
    fn from(value: InputEvent) -> (event: KeyEvent) {
        if value.type_ == EV_SYN && value.code == SYN_REPORT {
            KeyEvent::Sync(value.value, value.time)
        } else if value.type_ == EV_MSC && value.code == MSC_SCAN {
            KeyEvent::Scancode(value.value, value.time)
        } else if value.type_ == EV_KEY {
            match KeyCode::from_repr(value.code) {
                Some(key) => {
                    if value.value == KEY_RELEASE {
                        KeyEvent::Release(key, value.time)
                    } else if value.value == KEY_PRESS {
                        KeyEvent::Press(key, false, value.time)
                    } else if value.value == KEY_HOLD {
                        KeyEvent::Press(key, true, value.time)
                    } else {
                        KeyEvent::Unsupported(EV_KEY, value.code, value.value, value.time)
                    }
                },
                None => KeyEvent::Unsupported(EV_KEY, value.code, value.value, value.time),
            }
        } else {
            KeyEvent::Unsupported(value.type_, value.code, value.value, value.time)
        }
    }
}

impl vstd::std_specs::convert::FromSpecImpl<InputEvent> for KeyEvent {
    open spec fn obeys_from_spec() -> bool {
        true
    }

    open spec fn from_spec(value: InputEvent) -> KeyEvent {
        KeyEvent::of_record(value)
    }
}

impl From<KeyEvent> for InputEvent {
    fn from(value: KeyEvent) -> (record: InputEvent) {
        match value {
            KeyEvent::Press(code, repeat, time) => InputEvent {
                time,
                type_: EV_KEY,
                code: code.to_u16(),
                value: if repeat {
                    KEY_HOLD
                } else {
                    KEY_PRESS
                },
            },
            KeyEvent::Release(code, time) => InputEvent {
                time,
                type_: EV_KEY,
                code: code.to_u16(),
                value: KEY_RELEASE,
            },
            KeyEvent::Sync(value, time) => InputEvent { time, type_: EV_SYN, code: SYN_REPORT, value },
            KeyEvent::Scancode(value, time) => InputEvent {
                time,
                type_: EV_MSC,
                code: MSC_SCAN,
                value,
            },
            KeyEvent::Unsupported(type_, code, value, time) => InputEvent {
                time,
                type_,
                code,
                value,
            },
        }
    }
}

impl vstd::std_specs::convert::FromSpecImpl<KeyEvent> for InputEvent {
    open spec fn obeys_from_spec() -> bool {
        true
    }

    open spec fn from_spec(value: KeyEvent) -> InputEvent {
        value.record()
    }
}

/// Two bytes that were written for a 16-bit number hold that number.
proof fn lemma_read_written_16(bytes: Seq<u8>, at: int, n: int)
    requires
        0 <= n < 0x1_0000,
        0 <= at,
        at + 2 <= bytes.len(),
        bytes.subrange(at, at + 2) == le_bytes_16(n),
    ensures
        le_u16(bytes, at) == n,
{
}

/// Four bytes that were written for a 32-bit number hold that number.
proof fn lemma_read_written_32(bytes: Seq<u8>, at: int, n: int)
    requires
        0 <= n < 0x1_0000_0000,
        0 <= at,
        at + 4 <= bytes.len(),
        bytes.subrange(at, at + 4) == le_bytes_32(n),
    ensures
        le_u32(bytes, at) == n,
{
    let part = bytes.subrange(at, at + 4);
    assert(bytes.subrange(at, at + 2) =~= part.subrange(0, 2));
    assert(bytes.subrange(at + 2, at + 4) =~= part.subrange(2, 4));
    assert(part.subrange(0, 2) =~= le_bytes_16(n % 0x1_0000));
    assert(part.subrange(2, 4) =~= le_bytes_16(n / 0x1_0000));
    lemma_read_written_16(bytes, at, n % 0x1_0000);
    lemma_read_written_16(bytes, at + 2, n / 0x1_0000);
}

/// Eight bytes that were written for a 64-bit number hold that number.
proof fn lemma_read_written_64(bytes: Seq<u8>, at: int, n: int)
    requires
        0 <= n < 0x1_0000_0000_0000_0000,
        0 <= at,
        at + 8 <= bytes.len(),
        bytes.subrange(at, at + 8) == le_bytes_64(n),
    ensures
        le_u64(bytes, at) == n,
{
    let part = bytes.subrange(at, at + 8);
    assert(bytes.subrange(at, at + 4) =~= part.subrange(0, 4));
    assert(bytes.subrange(at + 4, at + 8) =~= part.subrange(4, 8));
    assert(part.subrange(0, 4) =~= le_bytes_32(n % 0x1_0000_0000));
    assert(part.subrange(4, 8) =~= le_bytes_32(n / 0x1_0000_0000));
    lemma_read_written_32(bytes, at, n % 0x1_0000_0000);
    lemma_read_written_32(bytes, at + 4, n / 0x1_0000_0000);
}

/// Writing the 16-bit number that two bytes hold gives the two bytes.
proof fn lemma_write_read_16(bytes: Seq<u8>, at: int)
    requires
        0 <= at,
        at + 2 <= bytes.len(),
    ensures
        0 <= le_u16(bytes, at) < 0x1_0000,
        le_bytes_16(le_u16(bytes, at)) == bytes.subrange(at, at + 2),
{
}

/// Writing the 32-bit number that four bytes hold gives the four bytes.
proof fn lemma_write_read_32(bytes: Seq<u8>, at: int)
    requires
        0 <= at,
        at + 4 <= bytes.len(),
    ensures
        0 <= le_u32(bytes, at) < 0x1_0000_0000,
        le_bytes_32(le_u32(bytes, at)) == bytes.subrange(at, at + 4),
{
    lemma_write_read_16(bytes, at);
    lemma_write_read_16(bytes, at + 2);
}

/// Writing the 64-bit number that eight bytes hold gives the eight bytes.
proof fn lemma_write_read_64(bytes: Seq<u8>, at: int)
    requires
        0 <= at,
        at + 8 <= bytes.len(),
    ensures
        0 <= le_u64(bytes, at) < 0x1_0000_0000_0000_0000,
        le_bytes_64(le_u64(bytes, at)) == bytes.subrange(at, at + 8),
{
    let low = le_u32(bytes, at);
    let high = le_u32(bytes, at + 4);
    lemma_write_read_32(bytes, at);
    lemma_write_read_32(bytes, at + 4);
    lemma_fundamental_div_mod_converse(le_u64(bytes, at), 0x1_0000_0000, high, low);
}

/// Reading the bytes that were written for a record gives the record back.
pub proof fn lemma_record_round_trip(record: InputEvent)
    ensures
        record.bytes().len() == RECORD_LENGTH,
        InputEvent::of_bytes(record.bytes()) == record,
{
    let bytes = record.bytes();
    let seconds = unsigned_64(record.time.seconds as int);
    let microseconds = unsigned_64(record.time.microseconds as int);
    let value = unsigned_32(record.value as int);
    assert(bytes.subrange(0, 8) =~= le_bytes_64(seconds));
    assert(bytes.subrange(8, 16) =~= le_bytes_64(microseconds));
    assert(bytes.subrange(16, 18) =~= le_bytes_16(record.type_ as int));
    assert(bytes.subrange(18, 20) =~= le_bytes_16(record.code as int));
    assert(bytes.subrange(20, 24) =~= le_bytes_32(value));
    lemma_read_written_64(bytes, 0, seconds);
    lemma_read_written_64(bytes, 8, microseconds);
    lemma_read_written_16(bytes, 16, record.type_ as int);
    lemma_read_written_16(bytes, 18, record.code as int);
    lemma_read_written_32(bytes, 20, value);
}

/// Writing the record that was read from 24 bytes gives the bytes back: no
/// two blocks of bytes hold the same record.
pub proof fn lemma_bytes_round_trip(bytes: Seq<u8>)
    requires
        bytes.len() == RECORD_LENGTH,
    ensures
        InputEvent::of_bytes(bytes).bytes() == bytes,
{
    let record = InputEvent::of_bytes(bytes);
    assert(le_bytes_64(unsigned_64(record.time.seconds as int)) == bytes.subrange(0, 8)) by {
        lemma_write_read_64(bytes, 0);
    }
    assert(le_bytes_64(unsigned_64(record.time.microseconds as int)) == bytes.subrange(8, 16)) by {
        lemma_write_read_64(bytes, 8);
    }
    assert(le_bytes_16(record.type_ as int) == bytes.subrange(16, 18)) by {
        lemma_write_read_16(bytes, 16);
    }
    assert(le_bytes_16(record.code as int) == bytes.subrange(18, 20)) by {
        lemma_write_read_16(bytes, 18);
    }
    assert(le_bytes_32(unsigned_32(record.value as int)) == bytes.subrange(20, 24)) by {
        lemma_write_read_32(bytes, 20);
    }
}

/// The record of an event stands for that event, for every event that
/// reading can give.
pub proof fn lemma_event_round_trip(event: KeyEvent)
    requires
        event.is_readable(),
    ensures
        KeyEvent::of_record(event.record()) == event,
{
    match event {
        KeyEvent::Press(key, _, _) | KeyEvent::Release(key, _) => {
            lemma_code_assigned(key);
            lemma_code_round_trip(key);
        },
        _ => {},
    }
}

/// The event of a record stands for that record: reading keeps what was in
/// the record.
pub proof fn lemma_record_of_event(record: InputEvent)
    ensures
        KeyEvent::of_record(record).record() == record,
        KeyEvent::of_record(record).is_readable(),
{
    lemma_with_code_has_code(record.code as int);
}

/// Decoding the bytes that were encoded for an event gives the event back,
/// for every event that reading can give.
pub proof fn lemma_decode_encode(event: KeyEvent)
    requires
        event.is_readable(),
    ensures
        event.bytes().len() == RECORD_LENGTH,
        KeyEvent::of_bytes(event.bytes()) == event,
{
    lemma_record_round_trip(event.record());
    lemma_event_round_trip(event);
}

/// Encoding the event that was decoded from 24 bytes gives the bytes back.
pub proof fn lemma_encode_decode(bytes: Seq<u8>)
    requires
        bytes.len() == RECORD_LENGTH,
    ensures
        KeyEvent::of_bytes(bytes).bytes() == bytes,
{
    lemma_record_of_event(InputEvent::of_bytes(bytes));
    lemma_bytes_round_trip(bytes);
}

} // verus!
