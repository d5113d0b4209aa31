//! A staged idea-optimization pipeline: clarification, innovation, criticism,
//! synthesis, verification and summarization, each with a deterministic
//! keyword-based analysis path, plus the session state machine that governs
//! progression between stages.
//!
//! Free text is carried as UTF-8 bytes (`Vec<u8>`), and every score,
//! confidence and severity is a fixed-point value in thousandths, ranging
//! over `0..=1000`.

pub mod agents;
pub mod clarifier;
pub mod config;
pub mod critic;
pub mod data;
pub mod ids;
pub mod innovator;
pub mod runtime;
pub mod state_machine;
pub mod summarizer;
pub mod synthesizer;
pub mod text;
pub mod verification;
