//! Dispatch of announced commands and properties against one input line of a
//! character terminal shell.
pub mod executor;
pub mod input;
pub mod matcher;
pub mod property;
pub mod terminal;
