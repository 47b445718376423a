//! Golden instruction-level model of a single-cycle RV32I-class core, with a
//! differential-testing harness that drives the model in lockstep against an
//! external reference implementation and flags the first divergence.
#![allow(non_camel_case_types)]

pub mod alu;
pub mod bits;
pub mod branch;
pub mod control;
pub mod decode;
pub mod encode;
pub mod harness;
pub mod isa;
pub mod lsu;
pub mod lx32_system;
pub mod memory_sim;
pub mod reg_generic;
pub mod register_file;
pub mod rng;
