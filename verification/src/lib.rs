//! Decision logic for instrumenting a live process through a debugger:
//! layout compatibility, symbol resolution, breakpoint synchronisation,
//! module injection bookkeeping, expression results and memory marshalling.
//!
//! Everything here works on plain values. The program that drives a real
//! debugger converts what the debugger reports into these types and performs
//! the actions that the session state machine asks for.

pub mod context;
pub mod error;
pub mod evaluation;
pub mod inject;
pub mod layout;
pub mod marshal;
pub mod session;
pub mod symbols;
pub mod sync;
pub mod text;
