//! A decoder for AArch64 machine code.
//!
//! A byte stream is cut into four-byte slots, each slot is read as a
//! little-endian word, the word is classified against an ordered table of bit
//! templates and the matching instruction family extracts its operands.
//! Anything that cannot be decoded becomes a [`report::Report`], which either
//! ends the run ([`mode::Mode::Strict`]) or is collected while decoding goes
//! on ([`mode::Mode::Flexible`]).

pub mod arch;
pub mod bits;
pub mod decoder;
pub mod mode;
pub mod report;
pub mod text;
