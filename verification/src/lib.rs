//! Verified core of a classical molecular-dynamics engine: how an input
//! document is read into a simulation set-up, how a unit cell is replicated
//! into a super-cell, how the per-atom neighbour table is kept, and in which
//! order the engine performs the stages of a run.
//!
//! Real-valued quantities never enter this crate as machine numbers. A number
//! of the input document is carried as the numeral that the document writes,
//! and is held against zero by its notation; the geometry of a pair of atoms
//! is a value of a type that the caller chooses.

pub mod dynamics;
pub mod engine;
pub mod error;
pub mod io;
pub mod simulation;
pub mod statics;
pub mod system;
pub mod thermodynamics;
pub mod utils;
