//! Per-column conservation scoring of a protein multiple sequence alignment.
//!
//! The verified part of the library decides everything about a column that is
//! not floating-point arithmetic: which alphabet applies, how each residue is
//! classified, which sequences add their weight to which symbol, and which
//! normalisation size a column uses. A caller turns the resulting plan into a
//! score with the per-sequence weights and the column's gap penalty:
//! each symbol's frequency is a pseudo-count of 1e-7 plus the weights of its
//! member sequences, `H = -sum(f * log2 f)` over the alphabet, and the score is
//! `(1 - H / log2(effective_size)) * gap_penalty`.

pub mod alphabet;
pub mod text;
pub mod frequency;
pub mod pipeline;
pub mod options;

