//! Escrow of a token swap: a maker deposits tokens of one mint in a vault and asks for
//! tokens of another mint in return. A taker completes the swap; the maker may cancel it
//! once a minimum lifetime has passed.
//!
//! The library decides, from plain account values, whether an instruction is accepted and
//! which token-program calls it makes; the program around it reads the accounts, the clock,
//! and performs those calls.
pub mod constants;
pub mod error;
pub mod address;
pub mod state;
pub mod action;
pub mod instructions;
pub mod laws;
