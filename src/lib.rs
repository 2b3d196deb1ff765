//! A bridge between a command-line tool and the ArDrive CLI: wallet-source
//! precedence, invocation plans, and the normalisation of the CLI's loosely
//! structured output into typed drive and file records.

pub mod text;
pub mod json;
pub mod records;
pub mod cache;
pub mod invoke;
pub mod cli;
