//! Reading and setting the desktop's light or dark colour-scheme preference.
//!
//! The library holds the rules: how a preference is written and parsed, which
//! command stores it, which request reads it back, and in which order a run
//! does its work. The program around it does the work itself: it starts the
//! command, waits, asks the settings service and prints.

pub mod bridge;
pub mod preferences;
pub mod settings;
pub mod text;
