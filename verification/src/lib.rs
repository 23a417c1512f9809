//! A small chess toolkit: board coordinates, pieces, and a two-player chess clock.
//!
//! The crate is written for Verus: every function states what it does in its
//! contract, and the contract is proved.

pub mod board;
pub mod piece;
pub mod timer;
