//! The core of a kernel that serves an embedded, single-threaded
//! interpreter to the clients of a messaging protocol: who may call into
//! the interpreter, how its console hooks turn into messages, and how an
//! execute request is followed from its arrival to its reply.
//!
//! Nothing here does input or output. Each part takes what happened and says
//! what to do about it, as a list of actions in order; the program around
//! the library performs them.

pub mod arbiter;
pub mod bracketing;
pub mod console;
pub mod diagnostics;
pub mod environment;
pub mod events;
pub mod kernel;
pub mod lifecycle;
pub mod path;
pub mod prompt;
pub mod shell;
pub mod text;
pub mod variable;
pub mod variables_comm;
pub mod wire;
