//! A cycle-accurate 6502-family processor core and its byte-addressable
//! memory bus, as used inside a game-console emulator.
//!
//! The bus decodes a 64KB address space into mirrored and direct regions;
//! the processor advances one cycle per step call, driving a dozen
//! addressing modes as per-cycle state machines over a flat 256-entry
//! opcode dispatch table. Every step call is verified to implement the
//! transition function `step::cpu_step` on the abstract machine state, and
//! `laws` states the arithmetic, round-trip, mirroring and write-back
//! guarantees once, for all inputs.

pub mod memory;
pub mod state;
pub mod instructions;
pub mod decode;
pub mod step;
pub mod processor;
pub mod rom;
pub mod laws;
