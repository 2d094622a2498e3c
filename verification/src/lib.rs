//! Bridges a keyboard to a macropad controller.
//!
//! Raw records of an input device are read as key events, key events are
//! looked up on the key matrix of the controller by a layout, and what they
//! say is told to the controller in commands of a fixed length. Key events
//! can also be written as raw records for a virtual input device.
//!
//! - [`key_event`]: raw records and key events;
//!   [`key_event::key_code`]: the keys, their numbers and their names;
//!   [`key_event::matrix_mapper`]: layouts and the table from keys to matrix
//!   positions.
//! - [`keyboard`]: the commands to the controller and its responses.
//! - [`virtual_keyboard`]: what the controller is told of a key event.
//! - [`layout_learner`]: learning a layout from key presses.
//! - [`uinput`]: setting up a virtual input device and writing to it.
//! - [`error`]: what can go wrong.
//!
//! Nothing here opens or reads a device: the functions take what was read
//! and give what is to be written.

pub mod error;
pub mod key_event;
pub mod keyboard;
pub mod layout_learner;
pub mod uinput;
pub mod virtual_keyboard;
