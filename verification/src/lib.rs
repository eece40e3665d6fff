//! Turn an executable or script into a supervised background service on a
//! Linux host: deterministic synthesis of an init-system unit definition
//! from resolved inputs, pure resolution rules (interpreter inference,
//! name and path derivation), and orchestration of lifecycle transitions
//! (create, restart) as explicit state machines whose effectful actions
//! are carried out by a thin unverified boundary.

pub mod paths;
pub mod names;
pub mod synth;
pub mod parse;
pub mod lifecycle;
