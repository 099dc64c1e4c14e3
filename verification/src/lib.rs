//! A fixed-length message digest, as handed to a signing algorithm.
//!
//! A [`Message`] always holds exactly [`MESSAGE_SIZE`] bytes. It is built either
//! from an array of that length or from a slice whose length is checked, it is
//! compared and ordered byte by byte, and it is rendered as lowercase
//! hexadecimal text.

pub mod digest;
pub mod error;
pub mod hex;
pub mod lex;
pub mod order;

pub use digest::{Message, MESSAGE_SIZE};
pub use error::Error;
