//! Live audio levelling: the verified core around the gain stage.
//!
//! The capture side hands gain-adjusted blocks of samples to a bounded pipe, the
//! render side drains it, and a stream moves through a small lifecycle while
//! it is set up and torn down. Samples are carried as the bit patterns of
//! single-precision values.

pub mod cli;
pub mod history;
pub mod pipe;
pub mod stream;
