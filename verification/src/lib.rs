//! Rule-enforcement core of a match officiating engine: a deterministic
//! state machine that applies discrete commands ("actions") to a single
//! shared match context only when they are currently legal.

pub mod action;
pub mod context;
pub mod laws;
pub mod pause;
pub mod resume;
