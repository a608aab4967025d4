//! A guest/host boundary protocol over a linear byte memory.
//!
//! Variable-length payloads cross the boundary as (pointer, length) pairs
//! into an arena of guest memory. The arena hands out buffers, a codec
//! moves UTF-8 text in and out of them, and a script-execution endpoint
//! decodes a JSON request envelope, drives the script engine, and encodes
//! a success or diagnostic envelope back into the same buffer.

pub mod arena;
pub mod codec;
pub mod endpoint;
pub mod engine;
pub mod envelope;

pub use arena::Arena;
pub use arena::ArenaError;
pub use arena::Handle;
pub use codec::CodecError;
pub use endpoint::Input;
pub use endpoint::ScriptError;
pub use endpoint::VrlCompileResult;
pub use endpoint::VrlDiagnosticResult;
pub use endpoint::add;
pub use endpoint::compile;
pub use endpoint::echo_string;
pub use endpoint::parse_request;
pub use endpoint::read_string;
pub use endpoint::return_string;
pub use endpoint::run_vrl;
