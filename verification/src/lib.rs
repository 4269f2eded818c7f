//! An on-chain program with a single instruction, `initialize`, which greets
//! from the running program in the program log and changes nothing else.
//!
//! The program's identity is in [`program_id`]. The instruction and the
//! context it runs in are in [`instruction`]. What is taken from
//! `anchor_lang` on trust, rather than proved, is in [`anchor`].

pub mod anchor;
pub mod instruction;
pub mod program_id;

pub use instruction::{greeting, initialize, Context, Initialize};
pub use program_id::{id, ID};
