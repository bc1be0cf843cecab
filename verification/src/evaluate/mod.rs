//! The evaluator: a syntax tree to values and effects.
//!
//! `evaluate` starts a run, `Machine::run` steps it until it has a request
//! for its host, is done or has failed, and `Machine::reply` hands it the
//! host's answer. `semantics` says what a step is, `laws` and `soundness`
//! what holds of every run.

pub mod host;
pub mod kont;
pub mod laws;
pub mod literal;
pub mod machine;
pub mod operators;
pub mod scope;
pub mod semantics;
pub mod soundness;
pub mod value;

pub use host::{Reply, ReplyView, Request, RequestView, RuntimeError};
pub use literal::{Literal, LiteralView};
pub use machine::{evaluate, Control, Machine};
pub use scope::{FrameView, Scope};
pub use semantics::{ControlView, MachineView};
pub use value::{Callable, Value, ValueView};
